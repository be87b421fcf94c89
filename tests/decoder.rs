use tui_lib::input_parser::InputInterface;
use tui_lib::tui_events::TuiEvents;
use tui_lib::tui_keys::TuiKeys;

fn interface_with(bytes: &[u8]) -> InputInterface {
    let mut input = InputInterface::new();
    for b in bytes {
        input.push_byte(*b);
    }
    input
}

fn decode(bytes: &[u8]) -> Option<TuiEvents> {
    interface_with(bytes).read_parsed()
}

#[test]
fn printable_bytes_decode_to_their_character() {
    for b in 0x21u8..=0x7D {
        assert_eq!(decode(&[b]), Some(TuiEvents::AsciiReadable(b as char)));
    }
    assert_eq!(decode(b"a"), Some(TuiEvents::AsciiReadable('a')));
    assert_eq!(decode(b" "), Some(TuiEvents::Space));
}

#[test]
fn control_bytes_decode_to_their_letter() {
    assert_eq!(decode(&[0x03]), Some(TuiEvents::Control('C')));
    assert_eq!(decode(&[0x01]), Some(TuiEvents::Control('A')));
    assert_eq!(decode(&[0x1A]), Some(TuiEvents::Control('Z')));
    for b in 0x01u8..=0x1A {
        if b == 0x09 || b == 0x0A || b == 0x0D {
            continue;
        }
        assert_eq!(decode(&[b]), Some(TuiEvents::Control((b + 0x40) as char)));
    }
}

#[test]
fn special_single_bytes() {
    assert_eq!(decode(&[0x09]), Some(TuiEvents::Tab));
    assert_eq!(decode(&[0x0A]), Some(TuiEvents::Enter));
    assert_eq!(decode(&[0x0D]), Some(TuiEvents::Enter));
    assert_eq!(decode(&[0x7F]), Some(TuiEvents::Backspace));
    assert_eq!(decode(&[0x7E]), Some(TuiEvents::Other('~')));
    assert_eq!(decode(&[0x1C]), Some(TuiEvents::Other('\x1c')));
    assert_eq!(decode(&[0xE9]), Some(TuiEvents::Other('\u{e9}')));
}

#[test]
fn nul_is_passed_over() {
    assert_eq!(decode(&[0x00, b'q']), Some(TuiEvents::AsciiReadable('q')));
    let mut input = interface_with(&[0x00]);
    assert_eq!(input.read_parsed(), None);
    assert_eq!(input.pending_len(), 0);
}

#[test]
fn nothing_pending_gives_none() {
    assert_eq!(decode(&[]), None);
}

#[test]
fn lone_escape_is_escape() {
    assert_eq!(decode(&[0x1B]), Some(TuiEvents::Escape));
}

#[test]
fn arrows_and_delete() {
    assert_eq!(decode(b"\x1b[A"), Some(TuiEvents::UpArrow));
    assert_eq!(decode(b"\x1b[B"), Some(TuiEvents::DownArrow));
    assert_eq!(decode(b"\x1b[C"), Some(TuiEvents::RightArrow));
    assert_eq!(decode(b"\x1b[D"), Some(TuiEvents::LeftArrow));
    assert_eq!(decode(b"\x1b[3~"), Some(TuiEvents::Delete));
}

#[test]
fn malformed_sequences_are_errors() {
    assert_eq!(decode(b"\x1b[3X"), Some(TuiEvents::Error));
    assert_eq!(decode(b"\x1b[3"), Some(TuiEvents::Error));
    assert_eq!(decode(b"\x1b["), Some(TuiEvents::Error));
    assert_eq!(decode(b"\x1b[Z"), Some(TuiEvents::Error));
    assert_eq!(decode(b"\x1bO"), Some(TuiEvents::Error));
    assert_eq!(decode(b"\x1b[<9;1;1M"), Some(TuiEvents::Error));
    assert_eq!(decode(b"\x1b[<0;1;1X"), Some(TuiEvents::Error));
    assert_eq!(decode(b"\x1b[<0,1;1M"), Some(TuiEvents::Error));
    assert_eq!(decode(b"\x1b[<0;1"), Some(TuiEvents::Error));
}

#[test]
fn error_discards_the_rest_of_the_sequence() {
    let mut input = interface_with(b"\x1b[3Xabc");
    assert_eq!(input.read_parsed(), Some(TuiEvents::Error));
    assert_eq!(input.pending_len(), 0);
    input.push_byte(b'z');
    assert_eq!(input.read_parsed(), Some(TuiEvents::AsciiReadable('z')));
}

#[test]
fn button_presses() {
    assert_eq!(decode(b"\x1b[<0;10;20M"), Some(TuiEvents::LeftClick((10, 20))));
    assert_eq!(decode(b"\x1b[<1;3;4M"), Some(TuiEvents::MiddleClick((3, 4))));
    assert_eq!(decode(b"\x1b[<2;80;24M"), Some(TuiEvents::RightClick((80, 24))));
}

#[test]
fn button_release_is_suppressed() {
    let mut input = interface_with(b"\x1b[<0;10;20m");
    assert_eq!(input.read_parsed(), None);
    assert_eq!(input.pending_len(), 0);
    input.push_byte(b'k');
    assert_eq!(input.read_parsed(), Some(TuiEvents::AsciiReadable('k')));
}

#[test]
fn drags_motion_and_wheel() {
    assert_eq!(decode(b"\x1b[<32;5;6M"), Some(TuiEvents::LeftDrag((5, 6))));
    assert_eq!(decode(b"\x1b[<33;5;6M"), Some(TuiEvents::MiddleDrag((5, 6))));
    assert_eq!(decode(b"\x1b[<34;5;6M"), Some(TuiEvents::RightDrag((5, 6))));
    assert_eq!(decode(b"\x1b[<35;7;8m"), Some(TuiEvents::MouseMove((7, 8))));
    assert_eq!(decode(b"\x1b[<35;7;8M"), Some(TuiEvents::Error));
    assert_eq!(decode(b"\x1b[<32;5;6m"), Some(TuiEvents::Error));
    assert_eq!(decode(b"\x1b[<64;9;1M"), Some(TuiEvents::ScrollUp((9, 1))));
    assert_eq!(decode(b"\x1b[<65;9;1M"), Some(TuiEvents::ScrollDown((9, 1))));
    assert_eq!(decode(b"\x1b[<66;9;1M"), Some(TuiEvents::Error));
    assert_eq!(decode(b"\x1b[<64;9;1m"), Some(TuiEvents::Error));
}

#[test]
fn oversized_coordinates_are_errors() {
    assert_eq!(decode(b"\x1b[<0;99999;20M"), Some(TuiEvents::Error));
    assert_eq!(decode(b"\x1b[<0;65536;20M"), Some(TuiEvents::Error));
    assert_eq!(decode(b"\x1b[<0;1;70000M"), Some(TuiEvents::Error));
    assert_eq!(decode(b"\x1b[<0;65535;65535M"), Some(TuiEvents::LeftClick((65535, 65535))));
}

#[test]
fn number_reader() {
    let mut input = interface_with(b"99999;");
    assert_eq!(input.get_u16(), None);
    let mut input = interface_with(b"65535;");
    assert_eq!(input.get_u16(), Some((65535, b';')));
    assert_eq!(input.pending_len(), 0);
    let mut input = interface_with(b"042M7");
    assert_eq!(input.get_u16(), Some((42, b'M')));
    assert_eq!(input.pending_len(), 1);
    let mut input = interface_with(b"123");
    assert_eq!(input.get_u16(), None);
}

#[test]
fn coordinate_reader() {
    let mut input = interface_with(b";5;7M");
    assert_eq!(input.get_coordinates(), Some(((5, 7), b'M')));
    let mut input = interface_with(b";;M");
    assert_eq!(input.get_coordinates(), Some(((0, 0), b'M')));
    let mut input = interface_with(b"5;7M");
    assert_eq!(input.get_coordinates(), None);
    let mut input = interface_with(b";5:7M");
    assert_eq!(input.get_coordinates(), None);
}

#[test]
fn back_to_back_sequences_decode_independently() {
    let mut input = interface_with(b"\x1b[A\x1b[<0;1;2Mx\x1b[3~");
    assert_eq!(input.read_parsed(), Some(TuiEvents::UpArrow));
    assert_eq!(input.read_parsed(), Some(TuiEvents::LeftClick((1, 2))));
    assert_eq!(input.read_parsed(), Some(TuiEvents::AsciiReadable('x')));
    assert_eq!(input.read_parsed(), Some(TuiEvents::Delete));
    assert_eq!(input.read_parsed(), None);
}

#[test]
fn decoding_after_a_drained_error() {
    let mut input = interface_with(b"\x1b[<0;1;2X");
    assert_eq!(input.read_parsed(), Some(TuiEvents::Error));
    for b in b"\x1b[B\x1b[<2;3;4M" {
        input.push_byte(*b);
    }
    assert_eq!(input.read_parsed(), Some(TuiEvents::DownArrow));
    assert_eq!(input.read_parsed(), Some(TuiEvents::RightClick((3, 4))));
}

#[test]
fn parse_input_takes_the_first_byte_separately() {
    let mut input = interface_with(b"[C");
    assert_eq!(input.parse_input(0x1B), TuiEvents::RightArrow);
    let mut input = interface_with(b"");
    assert_eq!(input.parse_input(b'7'), TuiEvents::AsciiReadable('7'));
    assert_eq!(input.parse_input(0x00), TuiEvents::Ignore);
}

#[test]
fn escape_stages() {
    let mut input = interface_with(b"<6");
    assert_eq!(input.handle_mouse_events(), TuiEvents::Error);
    let mut input = interface_with(b"A");
    assert_eq!(input.handle_escape_input_s2(), TuiEvents::UpArrow);
    let mut input = interface_with(b"");
    assert_eq!(input.handle_escape_input_s1(), TuiEvents::Escape);
    let mut input = interface_with(b"5;1;1M");
    assert_eq!(input.handle_scroll_event(), TuiEvents::ScrollDown((1, 1)));
    let mut input = interface_with(b"4;2;3M");
    assert_eq!(input.handle_mouse_move_event(), TuiEvents::RightDrag((2, 3)));
    let mut input = interface_with(b"x");
    assert_eq!(input.read_raw_immediate(), Some(b'x'));
    assert_eq!(input.read_raw_immediate(), None);
    let mut input = interface_with(b"abc");
    input.drain();
    assert_eq!(input.pending_len(), 0);
}

#[test]
fn keyboard_filter() {
    assert_eq!(TuiEvents::LeftClick((1, 1)).filter_keyboard_events(), TuiEvents::Ignore);
    assert_eq!(TuiEvents::ScrollDown((1, 1)).filter_keyboard_events(), TuiEvents::Ignore);
    assert_eq!(TuiEvents::MouseMove((4, 1)).filter_keyboard_events(), TuiEvents::Ignore);
    assert_eq!(TuiEvents::Tab.filter_keyboard_events(), TuiEvents::Tab);
    assert_eq!(
        TuiEvents::AsciiReadable('x').filter_keyboard_events(),
        TuiEvents::AsciiReadable('x')
    );
    assert_ne!(TuiEvents::LeftClick((1, 2)), TuiEvents::LeftClick((2, 1)));
}

#[test]
fn keyboard_events_pass_over_the_mouse() {
    let mut input = interface_with(b"\x1b[<0;1;1M\x1b[<35;2;2ma\x1b[A");
    assert_eq!(input.get_keyboard_event(), Some(TuiKeys::AsciiReadable('a')));
    assert_eq!(input.get_keyboard_event(), Some(TuiKeys::UpArrow));
    assert_eq!(input.get_keyboard_event(), None);
    let mut input = interface_with(b"\x1b[<64;1;1M");
    assert_eq!(input.get_keyboard_event(), None);
    assert_eq!(input.pending_len(), 0);
    let mut input = interface_with(b"\x1b[3X");
    assert_eq!(input.get_keyboard_event(), Some(TuiKeys::Error));
    let mut input = interface_with(&[0x05]);
    assert_eq!(input.get_keyboard_event(), Some(TuiKeys::Control('E')));
}
