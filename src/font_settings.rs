use vstd::prelude::*;

use crate::tui_enums::{Color, ThreeBool};

verus! {

/// The display attributes of a piece of text. `Default` values are resolved
/// against the session's own settings when the text is written.
#[derive(Clone, Copy, PartialEq, Eq, Debug, Structural)]
pub struct FontSettings {
    pub font_color: Color,
    pub background_color: Color,
    pub is_bold: ThreeBool,
    pub is_underlined: ThreeBool,
    pub is_italics: ThreeBool,
    pub is_inverted: ThreeBool,
    pub is_blinking: ThreeBool,
    pub is_dec_line: bool,
}

impl FontSettings {
    /// Every attribute left to the session, line drawing off.
    pub open spec fn default_spec() -> FontSettings {
        FontSettings {
            font_color: Color::Default,
            background_color: Color::Default,
            is_bold: ThreeBool::Default,
            is_underlined: ThreeBool::Default,
            is_italics: ThreeBool::Default,
            is_inverted: ThreeBool::Default,
            is_blinking: ThreeBool::Default,
            is_dec_line: false,
        }
    }
}

impl Default for FontSettings {
    fn default() -> (r: FontSettings)
        ensures
            r == FontSettings::default_spec(),
    {
        FontSettings {
            font_color: Color::Default,
            background_color: Color::Default,
            is_bold: ThreeBool::Default,
            is_underlined: ThreeBool::Default,
            is_italics: ThreeBool::Default,
            is_inverted: ThreeBool::Default,
            is_blinking: ThreeBool::Default,
            is_dec_line: false,
        }
    }
}

} // verus!
