use vstd::prelude::*;

use crate::decimal::{decimal_chars, push_decimal};
use crate::font_settings::FontSettings;
use crate::tui_enums::{Color, CursorMode, ThreeBool};
use vstd::string::StringExecFns;

verus! {

// ---------------------------------------------------------------------------
// SGR parameters. A `Default` colour takes the session's colour; an
// attribute that is not `True` is switched off.
// ---------------------------------------------------------------------------

/// `c`, or the session's colour `ambient` when `c` is `Default`.
pub open spec fn resolve_color(c: Color, ambient: Color) -> Color {
    if c is Default {
        ambient
    } else {
        c
    }
}

/// The SGR parameter that sets the text colour.
pub open spec fn font_color_spec(c: Color) -> Seq<char> {
    match c {
        Color::White => "37"@,
        Color::BrightWhite => "97"@,
        Color::Black => "30"@,
        Color::BrightBlack => "90"@,
        Color::Red => "31"@,
        Color::BrightRed => "91"@,
        Color::Green => "32"@,
        Color::BrightGreen => "92"@,
        Color::Blue => "34"@,
        Color::BrightBlue => "94"@,
        Color::Yellow => "33"@,
        Color::BrightYellow => "93"@,
        Color::Magenta => "35"@,
        Color::BrightMagenta => "95"@,
        Color::Cyan => "36"@,
        Color::BrightCyan => "96"@,
        Color::CC256(n) => "38;5;"@ + decimal_chars(n as nat),
        Color::RGB(r, g, b) => "38;2;"@ + rgb_spec(r, g, b),
        Color::Default => "39"@,
    }
}

/// The SGR parameter that sets the background colour.
pub open spec fn background_color_spec(c: Color) -> Seq<char> {
    match c {
        Color::White => "47"@,
        Color::BrightWhite => "107"@,
        Color::Black => "40"@,
        Color::BrightBlack => "100"@,
        Color::Red => "41"@,
        Color::BrightRed => "101"@,
        Color::Green => "42"@,
        Color::BrightGreen => "102"@,
        Color::Blue => "44"@,
        Color::BrightBlue => "104"@,
        Color::Yellow => "43"@,
        Color::BrightYellow => "103"@,
        Color::Magenta => "45"@,
        Color::BrightMagenta => "105"@,
        Color::Cyan => "46"@,
        Color::BrightCyan => "106"@,
        Color::CC256(n) => "48;5;"@ + decimal_chars(n as nat),
        Color::RGB(r, g, b) => "48;2;"@ + rgb_spec(r, g, b),
        Color::Default => "49"@,
    }
}

/// `r;g;b` in decimal.
pub open spec fn rgb_spec(r: u8, g: u8, b: u8) -> Seq<char> {
    decimal_chars(r as nat) + ";"@ + decimal_chars(g as nat) + ";"@ + decimal_chars(b as nat)
}

/// The on-code when `b` is `True`, the off-code otherwise.
pub open spec fn flag_spec(b: ThreeBool, on: Seq<char>, off: Seq<char>) -> Seq<char> {
    if b is True {
        on
    } else {
        off
    }
}

/// `ESC [ font ; background ; bold ; underline ; italic ; inverse ; blink m`
/// for the attributes `f`, with its `Default` colours taken from `ambient`.
pub open spec fn font_settings_code_spec(ambient: FontSettings, f: FontSettings) -> Seq<char> {
    "\x1b["@ + font_color_spec(resolve_color(f.font_color, ambient.font_color)) + ";"@
        + background_color_spec(resolve_color(f.background_color, ambient.background_color))
        + ";"@ + flag_spec(f.is_bold, "1"@, "22"@) + ";"@ + flag_spec(f.is_underlined, "4"@, "24"@)
        + ";"@ + flag_spec(f.is_italics, "3"@, "23"@) + ";"@ + flag_spec(f.is_inverted, "7"@, "27"@)
        + ";"@ + flag_spec(f.is_blinking, "5"@, "25"@) + "m"@
}

/// Appends `r;g;b` to `s`.
fn push_rgb(s: &mut String, r: u8, g: u8, b: u8)
    ensures
        final(s)@ == old(s)@ + rgb_spec(r, g, b),
{
    push_decimal(s, r as u32);
    s.append(";");
    push_decimal(s, g as u32);
    s.append(";");
    push_decimal(s, b as u32);
    proof {
        assert(s@ =~= old(s)@ + rgb_spec(r, g, b));
    }
}

/// The SGR parameter for text colour `color`; `Default` takes the colour of
/// `ambient`.
pub fn get_font_color_code(ambient: &FontSettings, color: Color) -> (r: String)
    ensures
        r@ == font_color_spec(resolve_color(color, ambient.font_color)),
{
    let color = match color {
        Color::Default => ambient.font_color,
        _ => color,
    };
    match color {
        Color::White => String::from_str("37"),
        Color::BrightWhite => String::from_str("97"),
        Color::Black => String::from_str("30"),
        Color::BrightBlack => String::from_str("90"),
        Color::Red => String::from_str("31"),
        Color::BrightRed => String::from_str("91"),
        Color::Green => String::from_str("32"),
        Color::BrightGreen => String::from_str("92"),
        Color::Blue => String::from_str("34"),
        Color::BrightBlue => String::from_str("94"),
        Color::Yellow => String::from_str("33"),
        Color::BrightYellow => String::from_str("93"),
        Color::Magenta => String::from_str("35"),
        Color::BrightMagenta => String::from_str("95"),
        Color::Cyan => String::from_str("36"),
        Color::BrightCyan => String::from_str("96"),
        Color::CC256(n) => {
            let mut s = String::from_str("38;5;");
            push_decimal(&mut s, n as u32);
            s
        },
        Color::RGB(r, g, b) => {
            let mut s = String::from_str("38;2;");
            push_rgb(&mut s, r, g, b);
            s
        },
        Color::Default => String::from_str("39"),
    }
}

/// The SGR parameter for background colour `color`; `Default` takes the
/// background of `ambient`.
pub fn get_background_color_code(ambient: &FontSettings, color: Color) -> (r: String)
    ensures
        r@ == background_color_spec(resolve_color(color, ambient.background_color)),
{
    let color = match color {
        Color::Default => ambient.background_color,
        _ => color,
    };
    match color {
        Color::White => String::from_str("47"),
        Color::BrightWhite => String::from_str("107"),
        Color::Black => String::from_str("40"),
        Color::BrightBlack => String::from_str("100"),
        Color::Red => String::from_str("41"),
        Color::BrightRed => String::from_str("101"),
        Color::Green => String::from_str("42"),
        Color::BrightGreen => String::from_str("102"),
        Color::Blue => String::from_str("44"),
        Color::BrightBlue => String::from_str("104"),
        Color::Yellow => String::from_str("43"),
        Color::BrightYellow => String::from_str("103"),
        Color::Magenta => String::from_str("45"),
        Color::BrightMagenta => String::from_str("105"),
        Color::Cyan => String::from_str("46"),
        Color::BrightCyan => String::from_str("106"),
        Color::CC256(n) => {
            let mut s = String::from_str("48;5;");
            push_decimal(&mut s, n as u32);
            s
        },
        Color::RGB(r, g, b) => {
            let mut s = String::from_str("48;2;");
            push_rgb(&mut s, r, g, b);
            s
        },
        Color::Default => String::from_str("49"),
    }
}

pub fn get_bold_code(is_bold: ThreeBool) -> (r: &'static str)
    ensures
        r@ == flag_spec(is_bold, "1"@, "22"@),
{
    match is_bold {
        ThreeBool::True => "1",
        _ => "22",
    }
}

pub fn get_underlined_code(is_underlined: ThreeBool) -> (r: &'static str)
    ensures
        r@ == flag_spec(is_underlined, "4"@, "24"@),
{
    match is_underlined {
        ThreeBool::True => "4",
        _ => "24",
    }
}

pub fn get_italics_code(is_italics: ThreeBool) -> (r: &'static str)
    ensures
        r@ == flag_spec(is_italics, "3"@, "23"@),
{
    match is_italics {
        ThreeBool::True => "3",
        _ => "23",
    }
}

pub fn get_inverted_code(is_inverted: ThreeBool) -> (r: &'static str)
    ensures
        r@ == flag_spec(is_inverted, "7"@, "27"@),
{
    match is_inverted {
        ThreeBool::True => "7",
        _ => "27",
    }
}

pub fn get_blinking_code(is_blinking: ThreeBool) -> (r: &'static str)
    ensures
        r@ == flag_spec(is_blinking, "5"@, "25"@),
{
    match is_blinking {
        ThreeBool::True => "5",
        _ => "25",
    }
}

/// The SGR sequence that sets every attribute of `font_settings`, its
/// `Default` colours taken from `ambient`.
pub fn calc_font_settings_code(ambient: &FontSettings, font_settings: &FontSettings) -> (r: String)
    ensures
        r@ == font_settings_code_spec(*ambient, *font_settings),
{
    let mut code = String::from_str("\x1b[");
    let font = get_font_color_code(ambient, font_settings.font_color);
    code.append(font.as_str());
    code.append(";");
    let background = get_background_color_code(ambient, font_settings.background_color);
    code.append(background.as_str());
    code.append(";");
    code.append(get_bold_code(font_settings.is_bold));
    code.append(";");
    code.append(get_underlined_code(font_settings.is_underlined));
    code.append(";");
    code.append(get_italics_code(font_settings.is_italics));
    code.append(";");
    code.append(get_inverted_code(font_settings.is_inverted));
    code.append(";");
    code.append(get_blinking_code(font_settings.is_blinking));
    code.append("m");
    proof {
        assert(code@ =~= font_settings_code_spec(*ambient, *font_settings));
    }
    code
}

// ---------------------------------------------------------------------------
// Other control sequences.
// ---------------------------------------------------------------------------

/// `ESC ( 0` switches the DEC line-drawing set on, `ESC ( B` switches it off.
pub open spec fn dec_line_code_spec(is_dec_line: bool) -> Seq<char> {
    if is_dec_line {
        "\x1b(0"@
    } else {
        "\x1b(B"@
    }
}

pub fn get_dec_line_code(is_dec_line: bool) -> (r: &'static str)
    ensures
        r@ == dec_line_code_spec(is_dec_line),
{
    if is_dec_line {
        "\x1b(0"
    } else {
        "\x1b(B"
    }
}

/// The sequence that selects a cursor shape; it shows the cursor first, so a
/// hidden cursor reappears when another shape is chosen.
pub open spec fn cursor_code_spec(mode: CursorMode) -> Seq<char> {
    "\x1b[?25h"@ + match mode {
        CursorMode::BlinkingBlock => "\x1b[1 q"@,
        CursorMode::SteadyBlock => "\x1b[2 q"@,
        CursorMode::BlinkingUnderline => "\x1b[3 q"@,
        CursorMode::StedayUnderline => "\x1b[4 q"@,
        CursorMode::BlinkingBar => "\x1b[5 q"@,
        CursorMode::SteadyBar => "\x1b[6 q"@,
        CursorMode::Hidden => "\x1b[?25l"@,
        CursorMode::Default => "\x1b[0 q"@,
    }
}

pub fn get_cursor_code(mode: CursorMode) -> (r: String)
    ensures
        r@ == cursor_code_spec(mode),
{
    let mut code = String::from_str("\x1b[?25h");
    let shape = match mode {
        CursorMode::BlinkingBlock => "\x1b[1 q",
        CursorMode::SteadyBlock => "\x1b[2 q",
        CursorMode::BlinkingUnderline => "\x1b[3 q",
        CursorMode::StedayUnderline => "\x1b[4 q",
        CursorMode::BlinkingBar => "\x1b[5 q",
        CursorMode::SteadyBar => "\x1b[6 q",
        CursorMode::Hidden => "\x1b[?25l",
        CursorMode::Default => "\x1b[0 q",
    };
    code.append(shape);
    code
}

/// `ESC [ row ; column H`: moves the cursor to column `x` of row `y`.
pub open spec fn cursor_position_code_spec(x: u16, y: u16) -> Seq<char> {
    "\x1b["@ + decimal_chars(y as nat) + ";"@ + decimal_chars(x as nat) + "H"@
}

pub fn get_cursor_position_code(x: u16, y: u16) -> (r: String)
    ensures
        r@ == cursor_position_code_spec(x, y),
{
    let mut code = String::from_str("\x1b[");
    push_decimal(&mut code, y as u32);
    code.append(";");
    push_decimal(&mut code, x as u32);
    code.append("H");
    proof {
        assert(code@ =~= cursor_position_code_spec(x, y));
    }
    code
}

} // verus!
