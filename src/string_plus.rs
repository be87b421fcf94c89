use vstd::prelude::*;

use crate::decimal::{decimal_chars, push_decimal};
use crate::font_settings::FontSettings;
use crate::tui_enums::{Color, ThreeBool};
use vstd::string::StringExecFns;

verus! {

/// Characters of the DEC special graphics set, used to draw boxes and lines.
#[derive(Clone, Copy, PartialEq, Eq, Debug, Structural)]
pub enum DecCharSet {
    TopLeft,
    HorizontalBar,
    TopMiddle,
    TopRight,
    VerticalBar,
    MiddleLeft,
    MiddleMiddle,
    MiddleRight,
    BottomLeft,
    BottomMiddle,
    BottomRight,
    Block,
    LessEqual,
    GreaterEqual,
    NotEqual,
    Other(char),
}

impl DecCharSet {
    /// The character that selects this glyph while line drawing is on.
    pub open spec fn code_char(self) -> char {
        match self {
            DecCharSet::TopLeft => '\x6c',
            DecCharSet::TopMiddle => '\x77',
            DecCharSet::TopRight => '\x6b',
            DecCharSet::MiddleLeft => '\x74',
            DecCharSet::MiddleMiddle => '\x6e',
            DecCharSet::MiddleRight => '\x75',
            DecCharSet::BottomLeft => '\x6d',
            DecCharSet::BottomMiddle => '\x76',
            DecCharSet::BottomRight => '\x6a',
            DecCharSet::VerticalBar => '\x78',
            DecCharSet::HorizontalBar => '\x71',
            DecCharSet::Block => '\x61',
            DecCharSet::LessEqual => '\x79',
            DecCharSet::GreaterEqual => '\x7a',
            DecCharSet::NotEqual => '\x7c',
            DecCharSet::Other(code) => code,
        }
    }

    /// The glyph's character as a string.
    pub fn get_code(&self) -> (r: String)
        ensures
            r@ == seq![self.code_char()],
    {
        let c = match self {
            DecCharSet::TopLeft => '\x6c',
            DecCharSet::TopMiddle => '\x77',
            DecCharSet::TopRight => '\x6b',
            DecCharSet::MiddleLeft => '\x74',
            DecCharSet::MiddleMiddle => '\x6e',
            DecCharSet::MiddleRight => '\x75',
            DecCharSet::BottomLeft => '\x6d',
            DecCharSet::BottomMiddle => '\x76',
            DecCharSet::BottomRight => '\x6a',
            DecCharSet::VerticalBar => '\x78',
            DecCharSet::HorizontalBar => '\x71',
            DecCharSet::Block => '\x61',
            DecCharSet::LessEqual => '\x79',
            DecCharSet::GreaterEqual => '\x7a',
            DecCharSet::NotEqual => '\x7c',
            DecCharSet::Other(code) => *code,
        };
        char_to_string(c)
    }
}

/// The box-drawing subset of the DEC special graphics set.
#[derive(Clone, Copy, PartialEq, Eq, Debug, Structural)]
pub enum DecLine {
    TopLeft,
    HorizontalBar,
    TopMiddle,
    TopRight,
    VerticalBar,
    MiddleLeft,
    MiddleMiddle,
    MiddleRight,
    BottomLeft,
    BottomMiddle,
    BottomRight,
}

impl DecLine {
    /// The character that selects this glyph while line drawing is on.
    pub open spec fn code_char(self) -> char {
        match self {
            DecLine::TopLeft => '\x6c',
            DecLine::TopMiddle => '\x77',
            DecLine::TopRight => '\x6b',
            DecLine::MiddleLeft => '\x74',
            DecLine::MiddleMiddle => '\x6e',
            DecLine::MiddleRight => '\x75',
            DecLine::BottomLeft => '\x6d',
            DecLine::BottomMiddle => '\x76',
            DecLine::BottomRight => '\x6a',
            DecLine::VerticalBar => '\x78',
            DecLine::HorizontalBar => '\x71',
        }
    }

    /// The glyph's character as a string.
    pub fn get_code(&self) -> (r: String)
        ensures
            r@ == seq![self.code_char()],
    {
        let c = match self {
            DecLine::TopLeft => '\x6c',
            DecLine::TopMiddle => '\x77',
            DecLine::TopRight => '\x6b',
            DecLine::MiddleLeft => '\x74',
            DecLine::MiddleMiddle => '\x6e',
            DecLine::MiddleRight => '\x75',
            DecLine::BottomLeft => '\x6d',
            DecLine::BottomMiddle => '\x76',
            DecLine::BottomRight => '\x6a',
            DecLine::VerticalBar => '\x78',
            DecLine::HorizontalBar => '\x71',
        };
        char_to_string(c)
    }
}

/// Relies on `ToString for char`: the string holds exactly that character.
#[verifier::external_body]
pub(crate) fn char_to_string(c: char) -> (r: String)
    ensures
        r@ == seq![c],
{
    c.to_string()
}

/// Text together with the attributes it is to be written with.
#[derive(Clone, Debug)]
pub struct StringPlus {
    string: String,
    font_settings: FontSettings,
}

/// What a `StringPlus` holds: its characters and its attributes.
pub struct StringPlusView {
    pub text: Seq<char>,
    pub font_settings: FontSettings,
}

impl StringPlusView {
    /// Plain text: every attribute left to the session.
    pub open spec fn plain(text: Seq<char>) -> StringPlusView {
        StringPlusView { text, font_settings: FontSettings::default_spec() }
    }

    /// One glyph of the line-drawing set.
    pub open spec fn line_drawing(c: char) -> StringPlusView {
        StringPlusView {
            text: seq![c],
            font_settings: FontSettings { is_dec_line: true, ..FontSettings::default_spec() },
        }
    }

    pub open spec fn with_font_color(self, c: Color) -> StringPlusView {
        StringPlusView {
            font_settings: FontSettings { font_color: c, ..self.font_settings },
            ..self
        }
    }

    pub open spec fn with_background_color(self, c: Color) -> StringPlusView {
        StringPlusView {
            font_settings: FontSettings { background_color: c, ..self.font_settings },
            ..self
        }
    }

    pub open spec fn with_bold(self, b: ThreeBool) -> StringPlusView {
        StringPlusView { font_settings: FontSettings { is_bold: b, ..self.font_settings }, ..self }
    }

    pub open spec fn with_underlined(self, b: ThreeBool) -> StringPlusView {
        StringPlusView {
            font_settings: FontSettings { is_underlined: b, ..self.font_settings },
            ..self
        }
    }

    pub open spec fn with_italics(self, b: ThreeBool) -> StringPlusView {
        StringPlusView {
            font_settings: FontSettings { is_italics: b, ..self.font_settings },
            ..self
        }
    }

    pub open spec fn with_inverted(self, b: ThreeBool) -> StringPlusView {
        StringPlusView {
            font_settings: FontSettings { is_inverted: b, ..self.font_settings },
            ..self
        }
    }

    pub open spec fn with_blinking(self, b: ThreeBool) -> StringPlusView {
        StringPlusView {
            font_settings: FontSettings { is_blinking: b, ..self.font_settings },
            ..self
        }
    }

    pub open spec fn with_font_settings(self, f: FontSettings) -> StringPlusView {
        StringPlusView { font_settings: f, ..self }
    }
}

impl View for StringPlus {
    type V = StringPlusView;

    closed spec fn view(&self) -> StringPlusView {
        StringPlusView { text: self.string@, font_settings: self.font_settings }
    }
}

/// Setting an attribute twice keeps only the second value, whatever the
/// first was; in particular a second font colour replaces the first.
pub proof fn lemma_setters_override(
    v: StringPlusView,
    c1: Color,
    c2: Color,
    b1: ThreeBool,
    b2: ThreeBool,
    f1: FontSettings,
    f2: FontSettings,
)
    ensures
        v.with_font_color(c1).with_font_color(c2) == v.with_font_color(c2),
        v.with_background_color(c1).with_background_color(c2) == v.with_background_color(c2),
        v.with_bold(b1).with_bold(b2) == v.with_bold(b2),
        v.with_underlined(b1).with_underlined(b2) == v.with_underlined(b2),
        v.with_italics(b1).with_italics(b2) == v.with_italics(b2),
        v.with_inverted(b1).with_inverted(b2) == v.with_inverted(b2),
        v.with_blinking(b1).with_blinking(b2) == v.with_blinking(b2),
        v.with_font_settings(f1).with_font_settings(f2) == v.with_font_settings(f2),
{
}

impl StringPlus {
    fn plain(string: String) -> (r: StringPlus)
        ensures
            r@ == StringPlusView::plain(string@),
    {
        StringPlus { string, font_settings: FontSettings::default() }
    }

    /// One box-drawing glyph, with line drawing switched on.
    pub fn dec_line(line: DecLine) -> (r: StringPlus)
        ensures
            r@ == StringPlusView::line_drawing(line.code_char()),
    {
        let mut font_settings = FontSettings::default();
        font_settings.is_dec_line = true;
        StringPlus { string: line.get_code(), font_settings }
    }

    pub fn get_font_color(&self) -> (r: Color)
        ensures
            r == self@.font_settings.font_color,
    {
        self.font_settings.font_color
    }

    pub fn set_font_color(self, color: Color) -> (r: StringPlus)
        ensures
            r@ == self@.with_font_color(color),
    {
        let mut s = self;
        s.font_settings.font_color = color;
        s
    }

    pub fn get_background_color(&self) -> (r: Color)
        ensures
            r == self@.font_settings.background_color,
    {
        self.font_settings.background_color
    }

    pub fn get_bold(&self) -> (r: ThreeBool)
        ensures
            r == self@.font_settings.is_bold,
    {
        self.font_settings.is_bold
    }

    pub fn get_underlined(&self) -> (r: ThreeBool)
        ensures
            r == self@.font_settings.is_underlined,
    {
        self.font_settings.is_underlined
    }

    pub fn get_inverted(&self) -> (r: ThreeBool)
        ensures
            r == self@.font_settings.is_inverted,
    {
        self.font_settings.is_inverted
    }

    pub fn get_blinking(&self) -> (r: ThreeBool)
        ensures
            r == self@.font_settings.is_blinking,
    {
        self.font_settings.is_blinking
    }

    pub fn get_font_settings(&self) -> (r: &FontSettings)
        ensures
            *r == self@.font_settings,
    {
        &self.font_settings
    }

    pub fn get_dec_line(&self) -> (r: bool)
        ensures
            r == self@.font_settings.is_dec_line,
    {
        self.font_settings.is_dec_line
    }

    /// Length of the text in bytes of UTF-8.
    pub fn len(&self) -> (r: usize)
        ensures
            r == vstd::utf8::encode_utf8(self@.text).len() as usize,
    {
        self.string.as_str().len()
    }

    /// The text without its attributes.
    pub fn to_string(&self) -> (r: String)
        ensures
            r@ == self@.text,
    {
        self.string.clone()
    }
}

/// Attaching attributes to anything that can become a `StringPlus`. Each
/// setter returns a new value; the one it was called on is consumed.
pub trait StringPlusTrait: Sized {
    /// The value as text with attributes.
    spec fn sp_view(&self) -> StringPlusView;

    fn into_string_plus(self) -> (r: StringPlus)
        ensures
            r@ == self.sp_view(),
    ;

    fn set_font_color(self, color: Color) -> (r: StringPlus)
        ensures
            r@ == self.sp_view().with_font_color(color),
    {
        let mut s = self.into_string_plus();
        s.font_settings.font_color = color;
        s
    }

    fn set_background_color(self, color: Color) -> (r: StringPlus)
        ensures
            r@ == self.sp_view().with_background_color(color),
    {
        let mut s = self.into_string_plus();
        s.font_settings.background_color = color;
        s
    }

    fn set_bold(self, is_bold: ThreeBool) -> (r: StringPlus)
        ensures
            r@ == self.sp_view().with_bold(is_bold),
    {
        let mut s = self.into_string_plus();
        s.font_settings.is_bold = is_bold;
        s
    }

    fn set_underlined(self, is_underlined: ThreeBool) -> (r: StringPlus)
        ensures
            r@ == self.sp_view().with_underlined(is_underlined),
    {
        let mut s = self.into_string_plus();
        s.font_settings.is_underlined = is_underlined;
        s
    }

    fn set_italics(self, is_italics: ThreeBool) -> (r: StringPlus)
        ensures
            r@ == self.sp_view().with_italics(is_italics),
    {
        let mut s = self.into_string_plus();
        s.font_settings.is_italics = is_italics;
        s
    }

    fn set_inverted(self, is_inverted: ThreeBool) -> (r: StringPlus)
        ensures
            r@ == self.sp_view().with_inverted(is_inverted),
    {
        let mut s = self.into_string_plus();
        s.font_settings.is_inverted = is_inverted;
        s
    }

    fn set_blinking(self, is_blinking: ThreeBool) -> (r: StringPlus)
        ensures
            r@ == self.sp_view().with_blinking(is_blinking),
    {
        let mut s = self.into_string_plus();
        s.font_settings.is_blinking = is_blinking;
        s
    }

    fn set_font_settings(self, font_settings: FontSettings) -> (r: StringPlus)
        ensures
            r@ == self.sp_view().with_font_settings(font_settings),
    {
        let mut s = self.into_string_plus();
        s.font_settings = font_settings;
        s
    }
}

impl StringPlusTrait for StringPlus {
    open spec fn sp_view(&self) -> StringPlusView {
        self@
    }

    fn into_string_plus(self) -> (r: StringPlus) {
        self
    }
}

impl StringPlusTrait for String {
    open spec fn sp_view(&self) -> StringPlusView {
        StringPlusView::plain(self@)
    }

    fn into_string_plus(self) -> (r: StringPlus) {
        StringPlus::plain(self)
    }
}

impl<'a> StringPlusTrait for &'a str {
    open spec fn sp_view(&self) -> StringPlusView {
        StringPlusView::plain(self@)
    }

    fn into_string_plus(self) -> (r: StringPlus) {
        StringPlus::plain(String::from_str(self))
    }
}

impl StringPlusTrait for char {
    open spec fn sp_view(&self) -> StringPlusView {
        StringPlusView::plain(seq![*self])
    }

    fn into_string_plus(self) -> (r: StringPlus) {
        StringPlus::plain(char_to_string(self))
    }
}

impl StringPlusTrait for DecCharSet {
    open spec fn sp_view(&self) -> StringPlusView {
        StringPlusView::line_drawing(self.code_char())
    }

    fn into_string_plus(self) -> (r: StringPlus) {
        let mut font_settings = FontSettings::default();
        font_settings.is_dec_line = true;
        StringPlus { string: self.get_code(), font_settings }
    }
}

/// Turning a value into plain text with default attributes.
pub trait AsSp: Sized {
    /// The text of the value.
    spec fn text_spec(&self) -> Seq<char>;

    fn as_sp(self) -> (r: StringPlus)
        ensures
            r@ == StringPlusView::plain(self.text_spec()),
    ;
}

impl<'a> AsSp for &'a str {
    open spec fn text_spec(&self) -> Seq<char> {
        self@
    }

    fn as_sp(self) -> (r: StringPlus) {
        StringPlus::plain(String::from_str(self))
    }
}

impl AsSp for String {
    open spec fn text_spec(&self) -> Seq<char> {
        self@
    }

    fn as_sp(self) -> (r: StringPlus) {
        StringPlus::plain(self)
    }
}

impl AsSp for char {
    open spec fn text_spec(&self) -> Seq<char> {
        seq![*self]
    }

    fn as_sp(self) -> (r: StringPlus) {
        StringPlus::plain(char_to_string(self))
    }
}

impl AsSp for u16 {
    open spec fn text_spec(&self) -> Seq<char> {
        decimal_chars(*self as nat)
    }

    fn as_sp(self) -> (r: StringPlus) {
        let mut s = String::new();
        push_decimal(&mut s, self as u32);
        proof {
            assert(s@ =~= decimal_chars(self as nat));
        }
        StringPlus::plain(s)
    }
}

} // verus!
