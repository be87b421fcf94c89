use vstd::prelude::*;

use crate::tui_events::TuiEvents;
use crate::tui_keys::TuiKeys;

verus! {

// ---------------------------------------------------------------------------
// The input grammar, as spec functions over the bytes that are waiting to be
// read. Each stage returns the event it recognises and how many bytes it
// takes; the count is meaningful only when the event is not `Error`.
// ---------------------------------------------------------------------------

pub open spec fn is_digit(b: u8) -> bool {
    0x30 <= b && b <= 0x39
}

/// Number of decimal digits at the front of `s`.
pub open spec fn digit_run(s: Seq<u8>) -> nat
    decreases s.len(),
{
    if s.len() > 0 && is_digit(s[0]) {
        1 + digit_run(s.skip(1))
    } else {
        0
    }
}

/// Value of the decimal digits `d`, most significant first.
pub open spec fn decimal_value(d: Seq<u8>) -> nat
    decreases d.len(),
{
    if d.len() == 0 {
        0
    } else {
        decimal_value(d.drop_last()) * 10 + (d.last() - 0x30) as nat
    }
}

/// An unsigned 16-bit number: the leading digits of `s` (possibly none) and the
/// byte that ends them. `None` when no terminator follows the digits or when
/// their value does not fit in a `u16`. The count includes the terminator.
pub open spec fn number_spec(s: Seq<u8>) -> Option<(u16, u8, nat)> {
    let n = digit_run(s);
    if n < s.len() && decimal_value(s.take(n as int)) <= u16::MAX {
        Some((decimal_value(s.take(n as int)) as u16, s[n as int], n + 1))
    } else {
        None
    }
}

/// `; x ; y t`: a coordinate pair and the byte `t` that ends it.
pub open spec fn coordinates_spec(s: Seq<u8>) -> Option<((u16, u16), u8, nat)> {
    if s.len() > 0 && s[0] == 0x3B {
        match number_spec(s.skip(1)) {
            Some((x, sep, k1)) => {
                if sep == 0x3B {
                    match number_spec(s.skip(1 + k1 as int)) {
                        Some((y, t, k2)) => Some(((x, y), t, 1 + k1 + k2)),
                        None => None,
                    }
                } else {
                    None
                }
            },
            None => None,
        }
    } else {
        None
    }
}

/// The press event of the button that selector `sel` names.
pub open spec fn click_event(sel: u8, p: (u16, u16)) -> TuiEvents {
    if sel == 0x30 {
        TuiEvents::LeftClick(p)
    } else if sel == 0x31 {
        TuiEvents::MiddleClick(p)
    } else {
        TuiEvents::RightClick(p)
    }
}

/// After `ESC [ < 3`: drags with buttons one to three (`2`, `3`, `4`, ended by
/// `M`) and plain motion (`5`, ended by `m`).
pub open spec fn motion_spec(s: Seq<u8>) -> (TuiEvents, nat) {
    if s.len() == 0 {
        (TuiEvents::Error, 0)
    } else {
        match coordinates_spec(s.skip(1)) {
            Some((p, t, k)) => {
                if s[0] == 0x32 && t == 0x4D {
                    (TuiEvents::LeftDrag(p), 1 + k)
                } else if s[0] == 0x33 && t == 0x4D {
                    (TuiEvents::MiddleDrag(p), 1 + k)
                } else if s[0] == 0x34 && t == 0x4D {
                    (TuiEvents::RightDrag(p), 1 + k)
                } else if s[0] == 0x35 && t == 0x6D {
                    (TuiEvents::MouseMove(p), 1 + k)
                } else {
                    (TuiEvents::Error, 0)
                }
            },
            None => (TuiEvents::Error, 0),
        }
    }
}

/// After `ESC [ < 6`: the wheel, `4` up and `5` down, both ended by `M`.
pub open spec fn scroll_spec(s: Seq<u8>) -> (TuiEvents, nat) {
    if s.len() == 0 {
        (TuiEvents::Error, 0)
    } else {
        match coordinates_spec(s.skip(1)) {
            Some((p, t, k)) => {
                if s[0] == 0x34 && t == 0x4D {
                    (TuiEvents::ScrollUp(p), 1 + k)
                } else if s[0] == 0x35 && t == 0x4D {
                    (TuiEvents::ScrollDown(p), 1 + k)
                } else {
                    (TuiEvents::Error, 0)
                }
            },
            None => (TuiEvents::Error, 0),
        }
    }
}

/// After `ESC [ <`: an SGR mouse report. A button press ends in `M`, its
/// release in `m`, which is recognised and suppressed.
pub open spec fn mouse_spec(s: Seq<u8>) -> (TuiEvents, nat) {
    if s.len() == 0 {
        (TuiEvents::Error, 0)
    } else if s[0] == 0x30 || s[0] == 0x31 || s[0] == 0x32 {
        match coordinates_spec(s.skip(1)) {
            Some((p, t, k)) => {
                if t == 0x4D {
                    (click_event(s[0], p), 1 + k)
                } else if t == 0x6D {
                    (TuiEvents::Ignore, 1 + k)
                } else {
                    (TuiEvents::Error, 0)
                }
            },
            None => (TuiEvents::Error, 0),
        }
    } else if s[0] == 0x33 {
        let r = motion_spec(s.skip(1));
        (r.0, r.1 + 1)
    } else if s[0] == 0x36 {
        let r = scroll_spec(s.skip(1));
        (r.0, r.1 + 1)
    } else {
        (TuiEvents::Error, 0)
    }
}

/// After `ESC [`: arrows, delete (`3 ~`) and mouse reports.
pub open spec fn csi_spec(s: Seq<u8>) -> (TuiEvents, nat) {
    if s.len() == 0 {
        (TuiEvents::Error, 0)
    } else if s[0] == 0x41 {
        (TuiEvents::UpArrow, 1)
    } else if s[0] == 0x42 {
        (TuiEvents::DownArrow, 1)
    } else if s[0] == 0x43 {
        (TuiEvents::RightArrow, 1)
    } else if s[0] == 0x44 {
        (TuiEvents::LeftArrow, 1)
    } else if s[0] == 0x33 {
        if s.len() > 1 && s[1] == 0x7E {
            (TuiEvents::Delete, 2)
        } else {
            (TuiEvents::Error, 0)
        }
    } else if s[0] == 0x3C {
        let r = mouse_spec(s.skip(1));
        (r.0, r.1 + 1)
    } else {
        (TuiEvents::Error, 0)
    }
}

/// After `ESC`: a bare escape key when nothing follows, else a CSI sequence.
pub open spec fn escape_spec(s: Seq<u8>) -> (TuiEvents, nat) {
    if s.len() == 0 {
        (TuiEvents::Escape, 0)
    } else if s[0] == 0x5B {
        let r = csi_spec(s.skip(1));
        (r.0, r.1 + 1)
    } else {
        (TuiEvents::Error, 0)
    }
}

/// The event of a single byte other than `ESC`.
pub open spec fn key_spec(b: u8) -> TuiEvents {
    if b == 0x7F {
        TuiEvents::Backspace
    } else if b == 0x0A || b == 0x0D {
        TuiEvents::Enter
    } else if b == 0x20 {
        TuiEvents::Space
    } else if b == 0x09 {
        TuiEvents::Tab
    } else if 0x20 <= b && b <= 0x7D {
        TuiEvents::AsciiReadable(b as char)
    } else if b == 0 {
        TuiEvents::Ignore
    } else if 1 <= b && b <= 26 {
        TuiEvents::Control(((b + 0x40) as u8) as char)
    } else {
        TuiEvents::Other(b as char)
    }
}

/// The event that starts at the front of `s` and the bytes it takes. After an
/// escape sequence that ends in `Error` or `Ignore` every waiting byte is
/// discarded.
#[verifier::opaque]
pub open spec fn event_spec(s: Seq<u8>) -> (TuiEvents, nat)
    recommends
        s.len() > 0,
{
    if s[0] == 0x1B {
        let r = escape_spec(s.skip(1));
        if r.0 is Error || r.0 is Ignore {
            (r.0, s.len())
        } else {
            (r.0, r.1 + 1)
        }
    } else {
        (key_spec(s[0]), 1)
    }
}

/// Decodes events from the front of `s`, passing over `Ignore`, until one
/// that is not `Ignore` comes out (`Some`) or the bytes run out (`None`).
pub open spec fn parsed_spec(s: Seq<u8>) -> (Option<TuiEvents>, nat)
    decreases s.len(),
    via parsed_spec_decreases
{
    if s.len() == 0 {
        (None, 0)
    } else {
        let r = event_spec(s);
        if r.0 is Ignore {
            let q = parsed_spec(s.skip(r.1 as int));
            (q.0, q.1 + r.1)
        } else {
            (Some(r.0), r.1)
        }
    }
}

/// The key of a keyboard event; `None` for mouse events and `Ignore`.
pub open spec fn key_of(e: TuiEvents) -> Option<TuiKeys> {
    match e {
        TuiEvents::Enter => Some(TuiKeys::Enter),
        TuiEvents::LeftArrow => Some(TuiKeys::LeftArrow),
        TuiEvents::RightArrow => Some(TuiKeys::RightArrow),
        TuiEvents::UpArrow => Some(TuiKeys::UpArrow),
        TuiEvents::DownArrow => Some(TuiKeys::DownArrow),
        TuiEvents::Escape => Some(TuiKeys::Escape),
        TuiEvents::Backspace => Some(TuiKeys::Backspace),
        TuiEvents::Delete => Some(TuiKeys::Delete),
        TuiEvents::Tab => Some(TuiKeys::Tab),
        TuiEvents::Space => Some(TuiKeys::Space),
        TuiEvents::AsciiReadable(c) => Some(TuiKeys::AsciiReadable(c)),
        TuiEvents::Control(c) => Some(TuiKeys::Control(c)),
        TuiEvents::Other(c) => Some(TuiKeys::Other(c)),
        TuiEvents::Error => Some(TuiKeys::Error),
        _ => None,
    }
}

/// Decodes events from the front of `s` until a keyboard event comes out,
/// passing over mouse events and `Ignore`; `None` when the bytes run out.
pub open spec fn keyboard_spec(s: Seq<u8>) -> (Option<TuiKeys>, nat)
    decreases s.len(),
    via keyboard_spec_decreases
{
    let p = parsed_spec(s);
    match p.0 {
        None => (None, p.1),
        Some(e) => match key_of(e) {
            Some(k) => (Some(k), p.1),
            None => {
                let q = keyboard_spec(s.skip(p.1 as int));
                (q.0, q.1 + p.1)
            },
        },
    }
}

/// `s` is what is left of `t` after some bytes were taken from its front.
pub open spec fn is_suffix(s: Seq<u8>, t: Seq<u8>) -> bool {
    s.len() <= t.len() && s == t.skip(t.len() - s.len())
}

// ---------------------------------------------------------------------------
// Lemmas on the grammar.
// ---------------------------------------------------------------------------

/// `digit_run` stops at the first byte that is not a digit.
pub proof fn lemma_digit_run(s: Seq<u8>)
    ensures
        digit_run(s) <= s.len(),
        forall|j: int| 0 <= j < digit_run(s) ==> is_digit(#[trigger] s[j]),
        digit_run(s) < s.len() ==> !is_digit(s[digit_run(s) as int]),
    decreases s.len(),
{
    if s.len() > 0 && is_digit(s[0]) {
        lemma_digit_run(s.skip(1));
        assert forall|j: int| 0 <= j < digit_run(s) implies is_digit(#[trigger] s[j]) by {
            if j > 0 {
                assert(s[j] == s.skip(1)[j - 1]);
            }
        }
    }
}

/// Reading more digits never makes a number smaller.
pub proof fn lemma_decimal_monotone(d: Seq<u8>, i: int, j: int)
    requires
        0 <= i <= j <= d.len(),
        forall|k: int| 0 <= k < d.len() ==> is_digit(#[trigger] d[k]),
    ensures
        decimal_value(d.take(i)) <= decimal_value(d.take(j)),
    decreases j - i,
{
    if i < j {
        lemma_decimal_monotone(d, i, j - 1);
        assert(d.take(j).drop_last() =~= d.take(j - 1));
    }
}

#[via_fn]
proof fn keyboard_spec_decreases(s: Seq<u8>) {
    lemma_parsed_count(s);
}

/// A decode that yields an event takes at least one byte, and never more
/// than are waiting.
pub proof fn lemma_parsed_count(s: Seq<u8>)
    ensures
        parsed_spec(s).1 <= s.len(),
        parsed_spec(s).0 is Some ==> parsed_spec(s).1 > 0,
    decreases s.len(),
{
    if s.len() > 0 {
        lemma_parsed_step(s);
        if event_spec(s).0 is Ignore {
            lemma_parsed_count(s.skip(event_spec(s).1 as int));
        }
    }
}

#[via_fn]
proof fn parsed_spec_decreases(s: Seq<u8>) {
    if s.len() > 0 {
        lemma_event_count(s);
    }
}

/// An event takes at least its first byte and no more than is waiting.
pub proof fn lemma_event_count(s: Seq<u8>)
    requires
        s.len() > 0,
    ensures
        0 < event_spec(s).1 <= s.len(),
{
    reveal(event_spec);
    if s[0] == 0x1B {
        let t = s.skip(1);
        if t.len() > 0 && t[0] == 0x5B {
            lemma_csi_count(t.skip(1));
        }
    }
}

/// One step of `parsed_spec`: an `Ignore` is passed over, any other event
/// ends the decode.
pub proof fn lemma_parsed_step(s: Seq<u8>)
    requires
        s.len() > 0,
    ensures
        0 < event_spec(s).1 <= s.len(),
        event_spec(s).0 is Ignore ==> parsed_spec(s) == (
            parsed_spec(s.skip(event_spec(s).1 as int)).0,
            parsed_spec(s.skip(event_spec(s).1 as int)).1 + event_spec(s).1,
        ),
        !(event_spec(s).0 is Ignore) ==> parsed_spec(s) == (Some(event_spec(s).0), event_spec(s).1),
{
    lemma_event_count(s);
}

/// The bytes a CSI sequence takes are all waiting.
proof fn lemma_csi_count(s: Seq<u8>)
    ensures
        !(csi_spec(s).0 is Error) ==> csi_spec(s).1 <= s.len(),
{
    if s.len() > 0 && s[0] == 0x3C {
        lemma_mouse_count(s.skip(1));
    }
}

/// The bytes a mouse report takes are all waiting.
proof fn lemma_mouse_count(s: Seq<u8>)
    ensures
        !(mouse_spec(s).0 is Error) ==> mouse_spec(s).1 <= s.len(),
{
    if s.len() > 0 {
        lemma_coordinates_count(s.skip(1));
        if s[0] == 0x33 || s[0] == 0x36 {
            lemma_coordinates_count(s.skip(2));
        }
    }
}

/// The bytes a coordinate pair takes are all waiting.
proof fn lemma_coordinates_count(s: Seq<u8>)
    ensures
        coordinates_spec(s) matches Some((_, _, k)) ==> k <= s.len(),
{
    if s.len() > 0 {
        lemma_digit_run(s.skip(1));
        if let Some((_, _, k1)) = number_spec(s.skip(1)) {
            lemma_digit_run(s.skip(1 + k1 as int));
        }
    }
}

/// Nothing taken is a suffix too.
pub proof fn lemma_suffix_refl(s: Seq<u8>)
    ensures
        is_suffix(s, s),
{
    assert(s =~= s.skip(0));
}

/// A suffix of a suffix is a suffix.
pub proof fn lemma_suffix_trans(a: Seq<u8>, b: Seq<u8>, c: Seq<u8>)
    requires
        is_suffix(a, b),
        is_suffix(b, c),
    ensures
        is_suffix(a, c),
{
    assert(a =~= c.skip(c.len() - a.len()));
}

// ---------------------------------------------------------------------------
// Laws of the decoder.
// ---------------------------------------------------------------------------

/// `s` holds exactly one event that ends on a byte of its own: it is not
/// `Error` or `Ignore`, and not a bare `Escape`, which is told apart only by
/// nothing following it.
pub open spec fn is_complete_event(s: Seq<u8>) -> bool {
    &&& s.len() > 0
    &&& event_spec(s).1 == s.len()
    &&& !(event_spec(s).0 is Error)
    &&& !(event_spec(s).0 is Ignore)
    &&& !(event_spec(s).0 is Escape)
}

/// A printable byte other than space decodes, on its own, to that character.
pub proof fn lemma_printable_byte(b: u8)
    requires
        0x21 <= b <= 0x7D,
    ensures
        parsed_spec(seq![b]) == (Some(TuiEvents::AsciiReadable(b as char)), 1nat),
{
    reveal(event_spec);
    assert(seq![b].skip(1) =~= Seq::<u8>::empty());
}

/// A control byte other than tab, line feed and carriage return decodes, on
/// its own, to the letter of its `Ctrl` combination.
pub proof fn lemma_control_byte(b: u8)
    requires
        0x01 <= b <= 0x1A,
        b != 0x09,
        b != 0x0A,
        b != 0x0D,
    ensures
        parsed_spec(seq![b]) == (Some(TuiEvents::Control(((b + 0x40) as u8) as char)), 1nat),
{
    reveal(event_spec);
    assert(seq![b].skip(1) =~= Seq::<u8>::empty());
}

/// Digits whose value exceeds `u16::MAX` are rejected, whatever follows them.
pub proof fn lemma_overflow_rejected(d: Seq<u8>, rest: Seq<u8>)
    requires
        forall|j: int| 0 <= j < d.len() ==> is_digit(#[trigger] d[j]),
        decimal_value(d) > u16::MAX,
    ensures
        number_spec(d + rest) is None,
{
    let s = d + rest;
    lemma_digit_run(s);
    let n = digit_run(s) as int;
    if n < d.len() {
        assert(s[n] == d[n]);
    }
    if n < s.len() {
        assert forall|k: int| 0 <= k < n implies is_digit(#[trigger] s.take(n)[k]) by {}
        lemma_decimal_monotone(s.take(n), d.len() as int, n);
        assert(s.take(n).take(d.len() as int) =~= d);
        assert(s.take(n).take(n) =~= s.take(n));
    }
}

/// A number that is complete in `s` reads the same with more bytes after it.
proof fn lemma_number_prefix(s: Seq<u8>, t: Seq<u8>)
    requires
        number_spec(s) is Some,
    ensures
        number_spec(s + t) == number_spec(s),
{
    let u = s + t;
    lemma_digit_run(s);
    lemma_digit_run(u);
    let n = digit_run(s) as int;
    assert(u[n] == s[n]);
    if digit_run(u) < n {
        assert(u[digit_run(u) as int] == s[digit_run(u) as int]);
    }
    assert(digit_run(u) == n);
    assert(u.take(n) =~= s.take(n));
}

/// A coordinate pair that is complete in `s` reads the same with more bytes
/// after it.
proof fn lemma_coordinates_prefix(s: Seq<u8>, t: Seq<u8>)
    requires
        coordinates_spec(s) is Some,
    ensures
        coordinates_spec(s + t) == coordinates_spec(s),
{
    let u = s + t;
    assert(u.skip(1) =~= s.skip(1) + t);
    lemma_number_prefix(s.skip(1), t);
    let k1 = number_spec(s.skip(1)).unwrap().2;
    lemma_digit_run(s.skip(1));
    assert(u.skip(1 + k1 as int) =~= s.skip(1 + k1 as int) + t);
    lemma_number_prefix(s.skip(1 + k1 as int), t);
}

/// A mouse report that is complete in `s` reads the same with more bytes
/// after it.
proof fn lemma_mouse_prefix(s: Seq<u8>, t: Seq<u8>)
    requires
        !(mouse_spec(s).0 is Error),
    ensures
        mouse_spec(s + t) == mouse_spec(s),
{
    let u = s + t;
    assert(u.skip(1) =~= s.skip(1) + t);
    if s[0] == 0x30 || s[0] == 0x31 || s[0] == 0x32 {
        lemma_coordinates_prefix(s.skip(1), t);
    } else {
        let r = s.skip(1);
        assert(u.skip(1).skip(1) =~= r.skip(1) + t);
        lemma_coordinates_prefix(r.skip(1), t);
    }
}

/// A CSI sequence that is complete in `s` reads the same with more bytes
/// after it.
proof fn lemma_csi_prefix(s: Seq<u8>, t: Seq<u8>)
    requires
        !(csi_spec(s).0 is Error),
    ensures
        csi_spec(s + t) == csi_spec(s),
{
    let u = s + t;
    if s[0] == 0x33 {
        assert(u[1] == s[1]);
    } else if s[0] == 0x3C {
        assert(u.skip(1) =~= s.skip(1) + t);
        lemma_mouse_prefix(s.skip(1), t);
    }
}

/// An event that is complete in `s` decodes the same with more bytes after it.
pub proof fn lemma_event_prefix(s: Seq<u8>, t: Seq<u8>)
    requires
        is_complete_event(s),
    ensures
        event_spec(s + t) == event_spec(s),
{
    reveal(event_spec);
    let u = s + t;
    assert(u[0] == s[0]);
    if s[0] == 0x1B {
        let r = s.skip(1);
        assert(u.skip(1) =~= r + t);
        assert((r + t)[0] == r[0]);
        assert((r + t).skip(1) =~= r.skip(1) + t);
        lemma_csi_prefix(r.skip(1), t);
    }
}

/// Decoding keeps no state between calls: a complete event followed by any
/// bytes decodes to that event, and leaves exactly the bytes that followed it
/// for the next call.
pub proof fn lemma_back_to_back(s1: Seq<u8>, s2: Seq<u8>)
    requires
        is_complete_event(s1),
    ensures
        parsed_spec(s1 + s2) == (Some(event_spec(s1).0), s1.len()),
        (s1 + s2).skip(s1.len() as int) == s2,
{
    lemma_event_prefix(s1, s2);
    lemma_parsed_step(s1 + s2);
    assert((s1 + s2).skip(s1.len() as int) =~= s2);
}

} // verus!
