use vstd::prelude::*;

verus! {

/// A keyboard event, without the mouse.
#[derive(Clone, Copy, PartialEq, Eq, Debug, Structural)]
pub enum TuiKeys {
    Enter,
    LeftArrow,
    RightArrow,
    UpArrow,
    DownArrow,
    Escape,
    Backspace,
    Delete,
    Tab,
    Space,
    AsciiReadable(char),
    Control(char),
    Other(char),
    Ignore,
    Error,
}

impl TuiKeys {
    /// The value of the key when it is a decimal digit.
    pub open spec fn digit_spec(self) -> Option<u8> {
        match self {
            TuiKeys::AsciiReadable(c) => {
                if '0' <= c <= '9' {
                    Some((c as u32 - '0' as u32) as u8)
                } else {
                    None
                }
            },
            _ => None,
        }
    }

    /// `Some(())` exactly when `self` equals `expected`, so that a sequence of
    /// expected keys can be checked with `?`.
    pub fn eq_or_none(&self, expected: &TuiKeys) -> (r: Option<()>)
        ensures
            r is Some <==> *self == *expected,
    {
        if *self == *expected {
            Some(())
        } else {
            None
        }
    }

    /// The value of a decimal digit key.
    pub fn get_digit(&self) -> (r: Option<u8>)
        ensures
            r == self.digit_spec(),
    {
        match self {
            TuiKeys::AsciiReadable(c) => {
                if '0' <= *c && *c <= '9' {
                    Some((*c as u32 - '0' as u32) as u8)
                } else {
                    None
                }
            },
            _ => None,
        }
    }
}

/// An event of a console that reports keys, resizes and other events as
/// records: a key with whether it went down, the key and its repeat count.
#[derive(Clone, Copy, PartialEq, Eq, Debug, Structural)]
pub enum TuiEvent {
    KeyEvent(bool, TuiKeys, u16),
    BufferSizeEvent,
    Other,
    Error,
}

} // verus!
