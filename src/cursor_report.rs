use vstd::prelude::*;

use crate::tui_errors::{IOError, OverflowError, TuiUnexpectedInputError};

verus! {

/// Where a reader of the cursor position report `ESC [ row ; column R` has
/// got to.
#[derive(Clone, Copy, PartialEq, Eq, Debug, Structural)]
pub enum CursorReportState {
    /// Expecting `ESC`.
    Start,
    /// Expecting `[`.
    Bracket,
    /// Reading the row; the digits so far give the value.
    Row(u16),
    /// Reading the column of the given row.
    Column(u16, u16),
}

/// Why a cursor position could not be read.
#[derive(Clone, Copy, PartialEq, Eq, Debug, Structural)]
pub enum CursorReportError {
    Io(IOError),
    Unexpected(TuiUnexpectedInputError),
    Overflow(OverflowError),
}

/// The outcome of one byte of the report.
#[derive(Clone, Copy, PartialEq, Eq, Debug, Structural)]
pub enum CursorReportStep {
    /// Read another byte in this state.
    Continue(CursorReportState),
    /// The report is complete: column and row, both 1-based.
    Done(u16, u16),
    Failed(CursorReportError),
}

/// `n` followed by the decimal digit `b`, unless that exceeds `u16::MAX`.
pub open spec fn push_digit_spec(n: u16, b: u8) -> Option<u16> {
    if n * 10 + (b - 0x30) <= u16::MAX {
        Some((n * 10 + (b - 0x30)) as u16)
    } else {
        None
    }
}

/// The error for byte `b` where `expected` belonged.
pub open spec fn unexpected(expected: char, b: u8) -> CursorReportStep {
    CursorReportStep::Failed(
        CursorReportError::Unexpected(TuiUnexpectedInputError { expected, recieved: b as char }),
    )
}

/// What byte `b` does in state `state`.
pub open spec fn report_step_spec(state: CursorReportState, b: u8) -> CursorReportStep {
    let is_digit = 0x30 <= b <= 0x39;
    match state {
        CursorReportState::Start => {
            if b == 0x1B {
                CursorReportStep::Continue(CursorReportState::Bracket)
            } else {
                unexpected('\x1b', b)
            }
        },
        CursorReportState::Bracket => {
            if b == 0x5B {
                CursorReportStep::Continue(CursorReportState::Row(0))
            } else {
                unexpected('[', b)
            }
        },
        CursorReportState::Row(y) => {
            if is_digit {
                match push_digit_spec(y, b) {
                    Some(v) => CursorReportStep::Continue(CursorReportState::Row(v)),
                    None => CursorReportStep::Failed(CursorReportError::Overflow(OverflowError {})),
                }
            } else if b == 0x3B {
                CursorReportStep::Continue(CursorReportState::Column(y, 0))
            } else {
                unexpected(';', b)
            }
        },
        CursorReportState::Column(y, x) => {
            if is_digit {
                match push_digit_spec(x, b) {
                    Some(v) => CursorReportStep::Continue(CursorReportState::Column(y, v)),
                    None => CursorReportStep::Failed(CursorReportError::Overflow(OverflowError {})),
                }
            } else if b == 0x52 {
                CursorReportStep::Done(x, y)
            } else {
                unexpected('R', b)
            }
        },
    }
}

/// The ASCII digits of `n` in decimal, without leading zeros.
pub open spec fn decimal_bytes(n: nat) -> Seq<u8>
    decreases n,
{
    if n < 10 {
        seq![(n + 0x30) as u8]
    } else {
        decimal_bytes(n / 10) + seq![(n % 10 + 0x30) as u8]
    }
}

/// The terminal's answer when the cursor is in column `x` of row `y`:
/// `ESC [ y ; x R`.
pub open spec fn report_bytes(x: u16, y: u16) -> Seq<u8> {
    seq![0x1Bu8, 0x5Bu8] + decimal_bytes(y as nat) + seq![0x3Bu8] + decimal_bytes(x as nat) + seq![
        0x52u8,
    ]
}

/// Feeds the bytes `s` one after another, from `state`, and stops at the first
/// outcome that is not `Continue`.
pub open spec fn run_report(state: CursorReportState, s: Seq<u8>) -> CursorReportStep
    decreases s.len(),
{
    if s.len() == 0 {
        CursorReportStep::Continue(state)
    } else {
        match report_step_spec(state, s[0]) {
            CursorReportStep::Continue(next) => run_report(next, s.skip(1)),
            r => r,
        }
    }
}

proof fn lemma_run_append(state: CursorReportState, a: Seq<u8>, b: Seq<u8>)
    ensures
        run_report(state, a + b) == match run_report(state, a) {
            CursorReportStep::Continue(next) => run_report(next, b),
            r => r,
        },
    decreases a.len(),
{
    if a.len() == 0 {
        assert(a + b =~= b);
    } else {
        assert((a + b)[0] == a[0]);
        assert((a + b).skip(1) =~= a.skip(1) + b);
        if let CursorReportStep::Continue(next) = report_step_spec(state, a[0]) {
            lemma_run_append(next, a.skip(1), b);
        }
    }
}

/// Reading the digits of `n` adds up to `n` in both number states.
proof fn lemma_run_digits(y: u16, n: u16)
    ensures
        run_report(CursorReportState::Row(0), decimal_bytes(n as nat)) == CursorReportStep::Continue(
            CursorReportState::Row(n),
        ),
        run_report(CursorReportState::Column(y, 0), decimal_bytes(n as nat))
            == CursorReportStep::Continue(CursorReportState::Column(y, n)),
    decreases n,
{
    reveal_with_fuel(run_report, 2);
    let d = decimal_bytes(n as nat);
    if n < 10 {
        assert(d.skip(1) =~= Seq::<u8>::empty());
        assert(d[0] == (n + 0x30) as u8);
        assert(push_digit_spec(0, d[0]) == Some(n));
    } else {
        let m = (n / 10) as u16;
        let last = seq![(n % 10 + 0x30) as u8];
        lemma_run_digits(y, m);
        assert(d == decimal_bytes(m as nat) + last);
        lemma_run_append(CursorReportState::Row(0), decimal_bytes(m as nat), last);
        lemma_run_append(CursorReportState::Column(y, 0), decimal_bytes(m as nat), last);
        assert(last.skip(1) =~= Seq::<u8>::empty());
        assert(m * 10 + (n % 10) == n);
        assert(push_digit_spec(m, last[0]) == Some(n));
    }
}

/// The answer the terminal sends for a position reads back as that position.
pub proof fn lemma_report_round_trip(x: u16, y: u16)
    ensures
        run_report(CursorReportState::Start, report_bytes(x, y)) == CursorReportStep::Done(x, y),
{
    reveal_with_fuel(run_report, 3);
    let head = seq![0x1Bu8, 0x5Bu8];
    let row = decimal_bytes(y as nat);
    let sep = seq![0x3Bu8];
    let col = decimal_bytes(x as nat);
    let end = seq![0x52u8];
    assert(report_bytes(x, y) == head + row + sep + col + end);
    lemma_run_append(CursorReportState::Start, head + row + sep + col, end);
    lemma_run_append(CursorReportState::Start, head + row + sep, col);
    lemma_run_append(CursorReportState::Start, head + row, sep);
    lemma_run_append(CursorReportState::Start, head, row);
    assert(head.skip(1).skip(1) =~= Seq::<u8>::empty());
    assert(head.skip(1)[0] == 0x5Bu8);
    assert(run_report(CursorReportState::Start, head) == CursorReportStep::Continue(
        CursorReportState::Row(0),
    ));
    lemma_run_digits(y, y);
    lemma_run_digits(y, x);
    assert(sep.skip(1) =~= Seq::<u8>::empty());
    assert(end.skip(1) =~= Seq::<u8>::empty());
}

fn push_digit(n: u16, b: u8) -> (r: Option<u16>)
    requires
        0x30 <= b <= 0x39,
    ensures
        r == push_digit_spec(n, b),
{
    let v = n as u32 * 10 + (b - 0x30) as u32;
    if v <= 0xFFFF {
        Some(v as u16)
    } else {
        None
    }
}

impl CursorReportState {
    /// Feeds one byte of the terminal's answer to `ESC [ 6 n`.
    pub fn step(self, b: u8) -> (r: CursorReportStep)
        ensures
            r == report_step_spec(self, b),
    {
        let is_digit = 0x30 <= b && b <= 0x39;
        match self {
            CursorReportState::Start => {
                if b == 0x1B {
                    CursorReportStep::Continue(CursorReportState::Bracket)
                } else {
                    unexpected_byte('\x1b', b)
                }
            },
            CursorReportState::Bracket => {
                if b == 0x5B {
                    CursorReportStep::Continue(CursorReportState::Row(0))
                } else {
                    unexpected_byte('[', b)
                }
            },
            CursorReportState::Row(y) => {
                if is_digit {
                    match push_digit(y, b) {
                        Some(v) => CursorReportStep::Continue(CursorReportState::Row(v)),
                        None => CursorReportStep::Failed(
                            CursorReportError::Overflow(OverflowError {}),
                        ),
                    }
                } else if b == 0x3B {
                    CursorReportStep::Continue(CursorReportState::Column(y, 0))
                } else {
                    unexpected_byte(';', b)
                }
            },
            CursorReportState::Column(y, x) => {
                if is_digit {
                    match push_digit(x, b) {
                        Some(v) => CursorReportStep::Continue(CursorReportState::Column(y, v)),
                        None => CursorReportStep::Failed(
                            CursorReportError::Overflow(OverflowError {}),
                        ),
                    }
                } else if b == 0x52 {
                    CursorReportStep::Done(x, y)
                } else {
                    unexpected_byte('R', b)
                }
            },
        }
    }
}

fn unexpected_byte(expected: char, b: u8) -> (r: CursorReportStep)
    ensures
        r == unexpected(expected, b),
{
    CursorReportStep::Failed(
        CursorReportError::Unexpected(TuiUnexpectedInputError { expected, recieved: b as char }),
    )
}

} // verus!
