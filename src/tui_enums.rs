use vstd::prelude::*;

use crate::decimal::{decimal_chars, push_decimal};
use vstd::string::StringExecFns;

verus! {

/// Whether a session takes over the whole screen (alternate buffer) or
/// writes into the normal scrollback.
#[derive(Clone, Copy, PartialEq, Eq, Debug, Structural)]
pub enum TuiMode {
    FullScreen,
    Standard,
}

/// A text or background colour: one of the sixteen named ANSI colours, an
/// index into the 256-colour palette, a 24-bit triple, or `Default`, which
/// inherits the colour that the session has set.
#[derive(Clone, Copy, PartialEq, Eq, Debug, Structural)]
pub enum Color {
    White,
    BrightWhite,
    Black,
    BrightBlack,
    Red,
    BrightRed,
    Green,
    BrightGreen,
    Blue,
    BrightBlue,
    Yellow,
    BrightYellow,
    Magenta,
    BrightMagenta,
    Cyan,
    BrightCyan,
    CC256(u8),
    RGB(u8, u8, u8),
    Default,
}

/// An attribute that is on, off, or left to the session (`Default`).
#[derive(Clone, Copy, PartialEq, Eq, Debug, Structural)]
pub enum ThreeBool {
    True,
    False,
    Default,
}

/// The shape of the text cursor.
#[derive(Clone, Copy, PartialEq, Eq, Debug, Structural)]
pub enum CursorMode {
    Default,
    BlinkingBlock,
    SteadyBlock,
    BlinkingUnderline,
    StedayUnderline,
    BlinkingBar,
    SteadyBar,
    Hidden,
}

/// A relative cursor movement by the given number of cells or lines.
#[derive(Clone, Copy, PartialEq, Eq, Debug, Structural)]
pub enum CursorNav {
    Up(u16),
    Down(u16),
    Forwards(u16),
    Backwards(u16),
    Next(u16),
    Previous(u16),
}

impl CursorNav {
    /// The final byte of the movement's CSI sequence.
    pub open spec fn final_char(self) -> char {
        match self {
            CursorNav::Up(_) => 'A',
            CursorNav::Down(_) => 'B',
            CursorNav::Forwards(_) => 'C',
            CursorNav::Backwards(_) => 'D',
            CursorNav::Next(_) => 'E',
            CursorNav::Previous(_) => 'F',
        }
    }

    /// The distance of the movement.
    pub open spec fn amount(self) -> u16 {
        match self {
            CursorNav::Up(n) => n,
            CursorNav::Down(n) => n,
            CursorNav::Forwards(n) => n,
            CursorNav::Backwards(n) => n,
            CursorNav::Next(n) => n,
            CursorNav::Previous(n) => n,
        }
    }

    /// `ESC [ n X`, where `X` names the direction.
    pub open spec fn code_spec(self) -> Seq<char> {
        seq!['\x1b', '['] + decimal_chars(self.amount() as nat) + seq![self.final_char()]
    }

    /// The escape sequence that moves the cursor.
    pub fn get_code(&self) -> (r: String)
        ensures
            r@ == self.code_spec(),
    {
        let (n, last): (u16, &str) = match self {
            CursorNav::Up(n) => (*n, "A"),
            CursorNav::Down(n) => (*n, "B"),
            CursorNav::Forwards(n) => (*n, "C"),
            CursorNav::Backwards(n) => (*n, "D"),
            CursorNav::Next(n) => (*n, "E"),
            CursorNav::Previous(n) => (*n, "F"),
        };
        proof {
            reveal_strlit("\x1b[");
            reveal_strlit("A");
            reveal_strlit("B");
            reveal_strlit("C");
            reveal_strlit("D");
            reveal_strlit("E");
            reveal_strlit("F");
        }
        let mut code = String::from_str("\x1b[");
        push_decimal(&mut code, n as u32);
        code.append(last);
        proof {
            assert(code@ =~= self.code_spec());
        }
        code
    }
}

} // verus!
