use std::collections::VecDeque;
use vstd::prelude::*;

use crate::input_grammar::{
    coordinates_spec, csi_spec, decimal_value, digit_run, escape_spec, event_spec, is_digit,
    is_suffix, keyboard_spec, lemma_decimal_monotone, lemma_digit_run, lemma_parsed_count,
    lemma_parsed_step, lemma_suffix_refl, lemma_suffix_trans, motion_spec, mouse_spec,
    number_spec, parsed_spec, scroll_spec,
};
use crate::tui_events::TuiEvents;
use crate::tui_keys::TuiKeys;

verus! {

// ---------------------------------------------------------------------------
// The decoder.
// ---------------------------------------------------------------------------

/// The bytes that the terminal has delivered and that are not decoded yet.
///
/// Whoever owns the terminal pushes bytes in as they arrive; decoding takes
/// them from the front. A byte that is not in the queue counts as "not
/// available without blocking".
pub struct InputInterface {
    pending: VecDeque<u8>,
}

impl View for InputInterface {
    type V = Seq<u8>;

    closed spec fn view(&self) -> Seq<u8> {
        self.pending@
    }
}

impl InputInterface {
    /// An interface with nothing pending.
    pub fn new() -> (r: InputInterface)
        ensures
            r@ == Seq::<u8>::empty(),
    {
        InputInterface { pending: VecDeque::new() }
    }

    /// Appends a byte that the terminal delivered.
    pub fn push_byte(&mut self, b: u8)
        ensures
            final(self)@ == old(self)@.push(b),
    {
        self.pending.push_back(b);
    }

    /// Number of bytes waiting.
    pub fn pending_len(&self) -> (r: usize)
        ensures
            r == self@.len(),
    {
        self.pending.len()
    }

    /// Takes the next byte if one is waiting.
    pub fn read_raw_immediate(&mut self) -> (r: Option<u8>)
        ensures
            old(self)@.len() == 0 ==> r is None && final(self)@ == old(self)@,
            old(self)@.len() > 0 ==> r == Some(old(self)@[0]) && final(self)@ == old(self)@.skip(
                1,
            ),
    {
        let r = self.pending.pop_front();
        proof {
            if old(self)@.len() > 0 {
                assert(self@ =~= old(self)@.skip(1));
            }
        }
        r
    }

    /// Discards every waiting byte, so that the next decode starts on a clean
    /// boundary after a malformed sequence.
    pub fn drain(&mut self)
        ensures
            final(self)@ == Seq::<u8>::empty(),
    {
        self.pending.clear();
    }

    /// Reads a decimal `u16` and the byte that ends it.
    pub fn get_u16(&mut self) -> (r: Option<(u16, u8)>)
        ensures
            number_spec(old(self)@) is None ==> r is None,
            number_spec(old(self)@) matches Some((v, t, k)) ==> r == Some((v, t)) && final(self)@
                == old(self)@.skip(k as int),
            is_suffix(final(self)@, old(self)@),
    {
        let ghost s0 = self@;
        let ghost mut i: int = 0;
        let mut num: u32 = 0;
        proof {
            lemma_digit_run(s0);
            assert(s0.take(0) =~= Seq::<u8>::empty());
        }
        loop
            invariant
                s0 == old(self)@,
                0 <= i <= s0.len(),
                self@ == s0.skip(i),
                forall|j: int| 0 <= j < i ==> is_digit(#[trigger] s0[j]),
                num == decimal_value(s0.take(i)),
                num <= u16::MAX,
                digit_run(s0) <= s0.len(),
                forall|j: int| 0 <= j < digit_run(s0) ==> is_digit(#[trigger] s0[j]),
                digit_run(s0) < s0.len() ==> !is_digit(s0[digit_run(s0) as int]),
            decreases s0.len() - i,
        {
            let next = match self.read_raw_immediate() {
                Some(b) => b,
                None => {
                    proof {
                        assert(i == s0.len());
                        if digit_run(s0) < s0.len() {
                            assert(!is_digit(s0[digit_run(s0) as int]));
                        }
                        assert(digit_run(s0) == s0.len());
                        assert(s0.skip(s0.len() as int) =~= self@);
                    }
                    return None;
                },
            };
            assert(next == s0[i]);
            if 0x30 <= next && next <= 0x39 {
                let digit = (next - 0x30) as u32;
                proof {
                    assert(s0.take(i + 1).drop_last() =~= s0.take(i));
                }
                if num * 10 + digit > 0xFFFF {
                    proof {
                        // Every byte up to `i` is a digit, so the run reaches past it.
                        assert(digit_run(s0) > i);
                        let n = digit_run(s0) as int;
                        let d = s0.take(n);
                        assert forall|k: int| 0 <= k < d.len() implies is_digit(#[trigger] d[k]) by {
                            assert(d[k] == s0[k]);
                        }
                        lemma_decimal_monotone(d, i + 1, n);
                        assert(d.take(i + 1) =~= s0.take(i + 1));
                        assert(d.take(n) =~= d);
                        assert(self@ =~= s0.skip(s0.len() - self@.len()));
                    }
                    return None;
                }
                num = num * 10 + digit;
                proof {
                    assert(self@ =~= s0.skip(i + 1));
                    i = i + 1;
                }
            } else {
                proof {
                    assert(digit_run(s0) == i);
                    assert(self@ =~= s0.skip(i + 1));
                }
                return Some((num as u16, next));
            }
        }
    }

    /// Reads `; x ; y` and the byte that ends `y`.
    pub fn get_coordinates(&mut self) -> (r: Option<((u16, u16), u8)>)
        ensures
            coordinates_spec(old(self)@) is None ==> r is None,
            coordinates_spec(old(self)@) matches Some((p, t, k)) ==> r == Some((p, t))
                && final(self)@ == old(self)@.skip(k as int),
            is_suffix(final(self)@, old(self)@),
    {
        let ghost s0 = self@;
        match self.read_raw_immediate() {
            Some(b) => {
                if b != 0x3B {
                    proof {
                        assert(self@ =~= s0.skip(s0.len() - self@.len()));
                    }
                    return None;
                }
            },
            None => {
                proof {
                    lemma_suffix_refl(self@);
                }
                return None;
            },
        }
        let ghost s1 = self@;
        let (x, sep) = match self.get_u16() {
            Some(v) => v,
            None => {
                proof {
                    assert(s1 =~= s0.skip(s0.len() - s1.len()));
                    lemma_suffix_trans(self@, s1, s0);
                }
                return None;
            },
        };
        let ghost s2 = self@;
        proof {
            assert(s1 =~= s0.skip(1));
            assert(s2 =~= s0.skip(s0.len() - s2.len()));
        }
        if sep != 0x3B {
            return None;
        }
        let ghost k1 = number_spec(s1).unwrap().2;
        proof {
            assert(s2 =~= s0.skip(1 + k1 as int));
        }
        match self.get_u16() {
            Some((y, c)) => {
                proof {
                    let k2 = number_spec(s2).unwrap().2;
                    assert(self@ =~= s0.skip((1 + k1 + k2) as int));
                }
                Some(((x, y), c))
            },
            None => {
                proof {
                    lemma_suffix_trans(self@, s2, s0);
                }
                None
            },
        }
    }

    /// The event of a mouse button (`0`, `1`, `2`): a press ends in `M`, a
    /// release in `m`.
    fn handle_button_event(&mut self, sel: u8) -> (r: TuiEvents)
        requires
            sel == 0x30 || sel == 0x31 || sel == 0x32,
        ensures
            r == mouse_spec(seq![sel] + old(self)@).0,
            !(r is Error) ==> final(self)@ == old(self)@.skip(
                mouse_spec(seq![sel] + old(self)@).1 - 1,
            ),
            is_suffix(final(self)@, old(self)@),
    {
        let ghost s = seq![sel] + self@;
        proof {
            assert(s.skip(1) =~= self@);
        }
        match self.get_coordinates() {
            Some((p, t)) => {
                if t == 0x4D {
                    if sel == 0x30 {
                        TuiEvents::LeftClick(p)
                    } else if sel == 0x31 {
                        TuiEvents::MiddleClick(p)
                    } else {
                        TuiEvents::RightClick(p)
                    }
                } else if t == 0x6D {
                    TuiEvents::Ignore
                } else {
                    TuiEvents::Error
                }
            },
            None => TuiEvents::Error,
        }
    }

    /// Decodes what follows `ESC [ <`.
    pub fn handle_mouse_events(&mut self) -> (r: TuiEvents)
        ensures
            r == mouse_spec(old(self)@).0,
            !(r is Error) ==> final(self)@ == old(self)@.skip(mouse_spec(old(self)@).1 as int),
            is_suffix(final(self)@, old(self)@),
    {
        let ghost s0 = self@;
        let sel = match self.read_raw_immediate() {
            Some(b) => b,
            None => {
                proof {
                    lemma_suffix_refl(self@);
                }
                return TuiEvents::Error;
            },
        };
        let ghost s1 = self@;
        proof {
            assert(s0 =~= seq![sel] + s1);
            assert(s1 =~= s0.skip(1));
            lemma_suffix_refl(s1);
        }
        let r = if sel == 0x30 || sel == 0x31 || sel == 0x32 {
            self.handle_button_event(sel)
        } else if sel == 0x33 {
            self.handle_mouse_move_event()
        } else if sel == 0x36 {
            self.handle_scroll_event()
        } else {
            TuiEvents::Error
        };
        proof {
            lemma_suffix_trans(self@, s1, s0);
            if !(r is Error) {
                assert(self@ =~= s0.skip(mouse_spec(s0).1 as int));
            }
        }
        r
    }

    /// Decodes what follows `ESC [ < 3`: drags and motion.
    pub fn handle_mouse_move_event(&mut self) -> (r: TuiEvents)
        ensures
            r == motion_spec(old(self)@).0,
            !(r is Error) ==> final(self)@ == old(self)@.skip(motion_spec(old(self)@).1 as int),
            is_suffix(final(self)@, old(self)@),
    {
        let ghost s0 = self@;
        let sel = match self.read_raw_immediate() {
            Some(b) => b,
            None => {
                proof {
                    lemma_suffix_refl(self@);
                }
                return TuiEvents::Error;
            },
        };
        let ghost s1 = self@;
        proof {
            assert(s1 =~= s0.skip(1));
        }
        if sel < 0x32 || sel > 0x35 {
            proof {
                assert(s1 =~= s0.skip(s0.len() - s1.len()));
            }
            return TuiEvents::Error;
        }
        let r = match self.get_coordinates() {
            Some((p, t)) => {
                if sel == 0x32 && t == 0x4D {
                    TuiEvents::LeftDrag(p)
                } else if sel == 0x33 && t == 0x4D {
                    TuiEvents::MiddleDrag(p)
                } else if sel == 0x34 && t == 0x4D {
                    TuiEvents::RightDrag(p)
                } else if sel == 0x35 && t == 0x6D {
                    TuiEvents::MouseMove(p)
                } else {
                    TuiEvents::Error
                }
            },
            None => TuiEvents::Error,
        };
        proof {
            assert(s1 =~= s0.skip(s0.len() - s1.len()));
            lemma_suffix_trans(self@, s1, s0);
            if !(r is Error) {
                let k = coordinates_spec(s1).unwrap().2;
                assert(self@ =~= s0.skip((1 + k) as int));
            }
        }
        r
    }

    /// Decodes what follows `ESC [ < 6`: the wheel.
    pub fn handle_scroll_event(&mut self) -> (r: TuiEvents)
        ensures
            r == scroll_spec(old(self)@).0,
            !(r is Error) ==> final(self)@ == old(self)@.skip(scroll_spec(old(self)@).1 as int),
            is_suffix(final(self)@, old(self)@),
    {
        let ghost s0 = self@;
        let sel = match self.read_raw_immediate() {
            Some(b) => b,
            None => {
                proof {
                    lemma_suffix_refl(self@);
                }
                return TuiEvents::Error;
            },
        };
        let ghost s1 = self@;
        proof {
            assert(s1 =~= s0.skip(1));
        }
        if sel != 0x34 && sel != 0x35 {
            proof {
                assert(s1 =~= s0.skip(s0.len() - s1.len()));
            }
            return TuiEvents::Error;
        }
        let r = match self.get_coordinates() {
            Some((p, t)) => {
                if sel == 0x34 && t == 0x4D {
                    TuiEvents::ScrollUp(p)
                } else if sel == 0x35 && t == 0x4D {
                    TuiEvents::ScrollDown(p)
                } else {
                    TuiEvents::Error
                }
            },
            None => TuiEvents::Error,
        };
        proof {
            assert(s1 =~= s0.skip(s0.len() - s1.len()));
            lemma_suffix_trans(self@, s1, s0);
            if !(r is Error) {
                let k = coordinates_spec(s1).unwrap().2;
                assert(self@ =~= s0.skip((1 + k) as int));
            }
        }
        r
    }
    /// Decodes what follows `ESC [`.
    pub fn handle_escape_input_s2(&mut self) -> (r: TuiEvents)
        ensures
            r == csi_spec(old(self)@).0,
            !(r is Error) ==> final(self)@ == old(self)@.skip(csi_spec(old(self)@).1 as int),
            is_suffix(final(self)@, old(self)@),
    {
        let ghost s0 = self@;
        let b = match self.read_raw_immediate() {
            Some(b) => b,
            None => {
                proof {
                    lemma_suffix_refl(self@);
                }
                return TuiEvents::Error;
            },
        };
        let ghost s1 = self@;
        proof {
            assert(s1 =~= s0.skip(1));
            assert(s1 =~= s0.skip(s0.len() - s1.len()));
        }
        if b == 0x41 {
            TuiEvents::UpArrow
        } else if b == 0x42 {
            TuiEvents::DownArrow
        } else if b == 0x43 {
            TuiEvents::RightArrow
        } else if b == 0x44 {
            TuiEvents::LeftArrow
        } else if b == 0x33 {
            match self.read_raw_immediate() {
                Some(c) => {
                    proof {
                        assert(self@ =~= s0.skip(2));
                    }
                    if c == 0x7E {
                        TuiEvents::Delete
                    } else {
                        TuiEvents::Error
                    }
                },
                None => TuiEvents::Error,
            }
        } else if b == 0x3C {
            let r = self.handle_mouse_events();
            proof {
                lemma_suffix_trans(self@, s1, s0);
                if !(r is Error) {
                    assert(self@ =~= s0.skip(csi_spec(s0).1 as int));
                }
            }
            r
        } else {
            TuiEvents::Error
        }
    }

    /// Decodes what follows `ESC`: a bare escape key when nothing is waiting,
    /// else a CSI sequence. A sequence that ends in `Error` or `Ignore` has
    /// every waiting byte discarded after it.
    pub fn handle_escape_input_s1(&mut self) -> (r: TuiEvents)
        ensures
            r == escape_spec(old(self)@).0,
            r is Error || r is Ignore ==> final(self)@ == Seq::<u8>::empty(),
            !(r is Error || r is Ignore) ==> final(self)@ == old(self)@.skip(
                escape_spec(old(self)@).1 as int,
            ),
    {
        let ghost s0 = self@;
        let r = match self.read_raw_immediate() {
            None => TuiEvents::Escape,
            Some(b) => {
                if b == 0x5B {
                    let r = self.handle_escape_input_s2();
                    proof {
                        if !(r is Error) {
                            assert(self@ =~= s0.skip(escape_spec(s0).1 as int));
                        }
                    }
                    r
                } else {
                    TuiEvents::Error
                }
            },
        };
        match r {
            TuiEvents::Error | TuiEvents::Ignore => {
                self.drain();
            },
            _ => {
                proof {
                    if s0.len() == 0 {
                        assert(self@ =~= s0.skip(0));
                    }
                }
            },
        }
        r
    }

    /// Decodes one event whose first byte `b` has already been taken.
    pub fn parse_input(&mut self, b: u8) -> (r: TuiEvents)
        ensures
            r == event_spec(seq![b] + old(self)@).0,
            final(self)@ == (seq![b] + old(self)@).skip(event_spec(seq![b] + old(self)@).1 as int),
    {
        let ghost s = seq![b] + self@;
        proof {
            reveal(event_spec);
            assert(s.skip(1) =~= self@);
            assert(s[0] == b);
        }
        if b == 0x1B {
            let r = self.handle_escape_input_s1();
            proof {
                if r is Error || r is Ignore {
                    assert(self@ =~= s.skip(s.len() as int));
                } else {
                    assert(self@ =~= s.skip(event_spec(s).1 as int));
                }
            }
            r
        } else {
            proof {
                assert(self@ =~= s.skip(1));
            }
            if b == 0x7F {
                TuiEvents::Backspace
            } else if b == 0x0A || b == 0x0D {
                TuiEvents::Enter
            } else if b == 0x20 {
                TuiEvents::Space
            } else if b == 0x09 {
                TuiEvents::Tab
            } else if 0x20 <= b && b <= 0x7D {
                TuiEvents::AsciiReadable(b as char)
            } else if b == 0 {
                TuiEvents::Ignore
            } else if 1 <= b && b <= 26 {
                TuiEvents::Control((b + 0x40) as char)
            } else {
                TuiEvents::Other(b as char)
            }
        }
    }

    /// Decodes the next event from the waiting bytes, passing over `Ignore`.
    /// `None` when the bytes run out before an event that is not `Ignore`.
    pub fn read_parsed(&mut self) -> (r: Option<TuiEvents>)
        ensures
            r == parsed_spec(old(self)@).0,
            final(self)@ == old(self)@.skip(parsed_spec(old(self)@).1 as int),
    {
        let ghost s0 = self@;
        proof {
            lemma_suffix_refl(s0);
        }
        loop
            invariant
                is_suffix(self@, s0),
                parsed_spec(s0) == (
                    parsed_spec(self@).0,
                    parsed_spec(self@).1 + (s0.len() - self@.len()) as nat,
                ),
                s0 == old(self)@,
            decreases self@.len(),
        {
            let ghost cur = self@;
            let b = match self.read_raw_immediate() {
                Some(b) => b,
                None => {
                    proof {
                        assert(self@ =~= s0.skip(s0.len() as int));
                    }
                    return None;
                },
            };
            proof {
                assert(seq![b] + self@ =~= cur);
            }
            let e = self.parse_input(b);
            proof {
                lemma_parsed_step(cur);
                assert(self@ =~= s0.skip(s0.len() - self@.len()));
            }
            match e {
                TuiEvents::Ignore => {},
                _ => {
                    return Some(e);
                },
            }
        }
    }
    /// Decodes the next keyboard event from the waiting bytes, passing over
    /// mouse events and `Ignore`. `None` when the bytes run out first.
    pub fn get_keyboard_event(&mut self) -> (r: Option<TuiKeys>)
        ensures
            r == keyboard_spec(old(self)@).0,
            final(self)@ == old(self)@.skip(keyboard_spec(old(self)@).1 as int),
    {
        let ghost s0 = self@;
        proof {
            lemma_suffix_refl(s0);
        }
        loop
            invariant
                is_suffix(self@, s0),
                keyboard_spec(s0) == (
                    keyboard_spec(self@).0,
                    keyboard_spec(self@).1 + (s0.len() - self@.len()) as nat,
                ),
                s0 == old(self)@,
            decreases self@.len(),
        {
            let ghost cur = self@;
            proof {
                lemma_parsed_count(cur);
            }
            let e = match self.read_parsed() {
                Some(e) => e,
                None => {
                    proof {
                        assert(self@ =~= s0.skip(keyboard_spec(s0).1 as int));
                    }
                    return None;
                },
            };
            let k = match e {
                TuiEvents::Enter => Some(TuiKeys::Enter),
                TuiEvents::LeftArrow => Some(TuiKeys::LeftArrow),
                TuiEvents::RightArrow => Some(TuiKeys::RightArrow),
                TuiEvents::UpArrow => Some(TuiKeys::UpArrow),
                TuiEvents::DownArrow => Some(TuiKeys::DownArrow),
                TuiEvents::Escape => Some(TuiKeys::Escape),
                TuiEvents::Backspace => Some(TuiKeys::Backspace),
                TuiEvents::Delete => Some(TuiKeys::Delete),
                TuiEvents::Tab => Some(TuiKeys::Tab),
                TuiEvents::Space => Some(TuiKeys::Space),
                TuiEvents::AsciiReadable(c) => Some(TuiKeys::AsciiReadable(c)),
                TuiEvents::Control(c) => Some(TuiKeys::Control(c)),
                TuiEvents::Other(c) => Some(TuiKeys::Other(c)),
                TuiEvents::Error => Some(TuiKeys::Error),
                _ => None,
            };
            proof {
                assert(self@ =~= s0.skip(s0.len() - self@.len()));
            }
            if k.is_some() {
                proof {
                    assert(self@ =~= s0.skip(keyboard_spec(s0).1 as int));
                }
                return k;
            }
        }
    }
}

} // verus!
