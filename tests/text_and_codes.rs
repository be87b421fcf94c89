use tui_lib::cursor_report::{CursorReportError, CursorReportState, CursorReportStep};
use tui_lib::font_settings::FontSettings;
use tui_lib::string_plus::{AsSp, DecCharSet, DecLine, StringPlus, StringPlusTrait};
use tui_lib::tui_codes::{
    calc_font_settings_code, get_background_color_code, get_blinking_code, get_bold_code,
    get_cursor_code, get_cursor_position_code, get_dec_line_code, get_font_color_code,
    get_inverted_code, get_italics_code, get_underlined_code,
};
use tui_lib::tui_enums::{Color, CursorMode, CursorNav, ThreeBool};
use tui_lib::tui_errors::{CError, IOError, OverflowError, TuiUnexpectedInputError};
use tui_lib::tui_keys::TuiKeys;
use tui_lib::tui_output::{print_output, println_output, write_output};

#[test]
fn second_font_color_replaces_the_first() {
    let twice = "x".set_font_color(Color::Red).set_font_color(Color::Blue);
    let once = "x".set_font_color(Color::Blue);
    assert_eq!(twice.get_font_color(), Color::Blue);
    assert_eq!(*twice.get_font_settings(), *once.get_font_settings());
    assert_eq!(twice.to_string(), once.to_string());
    let inherent = StringPlus::set_font_color("x".as_sp(), Color::Red);
    assert_eq!(inherent.set_font_color(Color::Green).get_font_color(), Color::Green);
}

#[test]
fn new_text_inherits_everything() {
    let s = "hello".as_sp();
    assert_eq!(*s.get_font_settings(), FontSettings::default());
    assert_eq!(s.get_font_color(), Color::Default);
    assert_eq!(s.get_background_color(), Color::Default);
    assert_eq!(s.get_bold(), ThreeBool::Default);
    assert_eq!(s.get_underlined(), ThreeBool::Default);
    assert_eq!(s.get_inverted(), ThreeBool::Default);
    assert_eq!(s.get_blinking(), ThreeBool::Default);
    assert!(!s.get_dec_line());
    assert_eq!(s.len(), 5);
}

#[test]
fn setters_touch_one_attribute() {
    let s = String::from("ab")
        .set_bold(ThreeBool::True)
        .set_underlined(ThreeBool::False)
        .set_italics(ThreeBool::True)
        .set_inverted(ThreeBool::True)
        .set_blinking(ThreeBool::False)
        .set_background_color(Color::CC256(17));
    assert_eq!(s.get_bold(), ThreeBool::True);
    assert_eq!(s.get_underlined(), ThreeBool::False);
    assert_eq!(s.get_font_settings().is_italics, ThreeBool::True);
    assert_eq!(s.get_inverted(), ThreeBool::True);
    assert_eq!(s.get_blinking(), ThreeBool::False);
    assert_eq!(s.get_background_color(), Color::CC256(17));
    assert_eq!(s.get_font_color(), Color::Default);
    let mut f = FontSettings::default();
    f.font_color = Color::Cyan;
    let t = s.set_font_settings(f);
    assert_eq!(*t.get_font_settings(), f);
    assert_eq!(t.to_string(), "ab");
}

#[test]
fn text_conversions() {
    assert_eq!(1234u16.as_sp().to_string(), "1234");
    assert_eq!(0u16.as_sp().to_string(), "0");
    assert_eq!('c'.as_sp().to_string(), "c");
    assert_eq!(String::from("s").as_sp().to_string(), "s");
    assert_eq!("\u{e9}".as_sp().len(), 2);
    assert_eq!('q'.set_bold(ThreeBool::True).to_string(), "q");
}

#[test]
fn line_drawing_glyphs() {
    assert_eq!(DecCharSet::TopLeft.get_code(), "l");
    assert_eq!(DecCharSet::NotEqual.get_code(), "|");
    assert_eq!(DecCharSet::Other('Q').get_code(), "Q");
    assert_eq!(DecLine::BottomRight.get_code(), "j");
    let s = DecCharSet::HorizontalBar.set_font_color(Color::Red);
    assert!(s.get_dec_line());
    assert_eq!(s.to_string(), "q");
    let d = StringPlus::dec_line(DecLine::VerticalBar);
    assert!(d.get_dec_line());
    assert_eq!(d.to_string(), "x");
}

#[test]
fn color_codes() {
    let plain = FontSettings::default();
    assert_eq!(get_font_color_code(&plain, Color::Red), "31");
    assert_eq!(get_font_color_code(&plain, Color::BrightBlack), "90");
    assert_eq!(get_font_color_code(&plain, Color::Default), "39");
    assert_eq!(get_font_color_code(&plain, Color::CC256(200)), "38;5;200");
    assert_eq!(get_font_color_code(&plain, Color::RGB(255, 41, 144)), "38;2;255;41;144");
    assert_eq!(get_background_color_code(&plain, Color::BrightRed), "101");
    assert_eq!(get_background_color_code(&plain, Color::Black), "40");
    assert_eq!(get_background_color_code(&plain, Color::Default), "49");
    assert_eq!(get_background_color_code(&plain, Color::RGB(0, 7, 10)), "48;2;0;7;10");
    let mut ambient = FontSettings::default();
    ambient.font_color = Color::Blue;
    ambient.background_color = Color::CC256(9);
    assert_eq!(get_font_color_code(&ambient, Color::Default), "34");
    assert_eq!(get_font_color_code(&ambient, Color::Green), "32");
    assert_eq!(get_background_color_code(&ambient, Color::Default), "48;5;9");
}

#[test]
fn attribute_codes() {
    assert_eq!(get_bold_code(ThreeBool::True), "1");
    assert_eq!(get_bold_code(ThreeBool::Default), "22");
    assert_eq!(get_underlined_code(ThreeBool::False), "24");
    assert_eq!(get_italics_code(ThreeBool::True), "3");
    assert_eq!(get_inverted_code(ThreeBool::True), "7");
    assert_eq!(get_blinking_code(ThreeBool::Default), "25");
    assert_eq!(get_dec_line_code(true), "\x1b(0");
    assert_eq!(get_dec_line_code(false), "\x1b(B");
    let mut f = FontSettings::default();
    f.font_color = Color::Red;
    f.is_bold = ThreeBool::True;
    assert_eq!(
        calc_font_settings_code(&FontSettings::default(), &f),
        "\x1b[31;49;1;24;23;27;25m"
    );
}

#[test]
fn cursor_codes() {
    assert_eq!(CursorNav::Up(5).get_code(), "\x1b[5A");
    assert_eq!(CursorNav::Down(12).get_code(), "\x1b[12B");
    assert_eq!(CursorNav::Forwards(65535).get_code(), "\x1b[65535C");
    assert_eq!(CursorNav::Backwards(1).get_code(), "\x1b[1D");
    assert_eq!(CursorNav::Next(3).get_code(), "\x1b[3E");
    assert_eq!(CursorNav::Previous(0).get_code(), "\x1b[0F");
    assert_eq!(get_cursor_code(CursorMode::Hidden), "\x1b[?25h\x1b[?25l");
    assert_eq!(get_cursor_code(CursorMode::SteadyBar), "\x1b[?25h\x1b[6 q");
    assert_eq!(get_cursor_position_code(3, 7), "\x1b[7;3H");
}

#[test]
fn multi_line_output_repeats_the_attributes() {
    let ambient = FontSettings::default();
    let text = "a\nb".set_font_color(Color::Red);
    let open = "\x1b[31;49;22;24;23;27;25m\x1b(B";
    let close = "\x1b[39;49;22;24;23;27;25m\x1b(B";
    assert_eq!(
        write_output(&ambient, &text),
        format!("{open}a{close}{open}\nb{close}")
    );
    let clear = "\x1b[0K";
    assert_eq!(
        print_output(&ambient, &text),
        format!("{open}{clear}a{close}{clear}{open}{clear}\nb{close}{clear}")
    );
    assert_eq!(
        println_output(&ambient, &text),
        format!("{open}{clear}a{close}{clear}\n{open}{clear}b{close}{clear}\n")
    );
    assert_eq!(
        write_output(&ambient, &"".as_sp()),
        format!("{close}{close}")
    );
}

#[test]
fn cursor_report_reading() {
    let mut state = CursorReportState::Start;
    let mut done = None;
    for b in b"\x1b[12;34R" {
        match state.step(*b) {
            CursorReportStep::Continue(next) => state = next,
            CursorReportStep::Done(x, y) => done = Some((x, y)),
            CursorReportStep::Failed(e) => panic!("{:?}", e),
        }
    }
    assert_eq!(done, Some((34, 12)));
    match CursorReportState::Start.step(b'X') {
        CursorReportStep::Failed(CursorReportError::Unexpected(e)) => {
            assert_eq!(e.expected, '\x1b');
            assert_eq!(e.recieved, 'X');
        }
        other => panic!("{:?}", other),
    }
    assert_eq!(
        CursorReportState::Row(6553).step(b'6'),
        CursorReportStep::Failed(CursorReportError::Overflow(OverflowError {}))
    );
    assert_eq!(
        CursorReportState::Row(6553).step(b'5'),
        CursorReportStep::Continue(CursorReportState::Row(65535))
    );
    assert_eq!(
        CursorReportState::Column(2, 3).step(b';'),
        CursorReportStep::Failed(CursorReportError::Unexpected(TuiUnexpectedInputError {
            expected: 'R',
            recieved: ';'
        }))
    );
}

#[test]
fn error_messages() {
    assert_eq!(IOError {}.message(), "IO Error");
    assert_eq!(OverflowError {}.message(), "Overflow");
    let e = TuiUnexpectedInputError { expected: ';', recieved: 'x' };
    assert_eq!(e.message(), "Expected: ;\nGot: x");
    assert_eq!(CError::new(String::from("bad fd")).message(), "bad fd");
}

#[test]
fn key_helpers() {
    assert_eq!(TuiKeys::AsciiReadable('7').get_digit(), Some(7));
    assert_eq!(TuiKeys::AsciiReadable('a').get_digit(), None);
    assert_eq!(TuiKeys::Enter.get_digit(), None);
    assert_eq!(TuiKeys::Tab.eq_or_none(&TuiKeys::Tab), Some(()));
    assert_eq!(TuiKeys::Tab.eq_or_none(&TuiKeys::Space), None);
}
