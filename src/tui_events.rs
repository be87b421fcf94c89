use vstd::prelude::*;

verus! {

/// One decoded unit of terminal input.
///
/// Mouse variants carry the 1-based `(column, row)` of the report.
#[derive(Clone, Copy, Eq, Debug)]
pub enum TuiEvents {
    Enter,
    LeftArrow,
    RightArrow,
    UpArrow,
    DownArrow,
    Escape,
    Backspace,
    Delete,
    Tab,
    Space,
    AsciiReadable(char),
    Control(char),
    Other(char),
    LeftClick((u16, u16)),
    MiddleClick((u16, u16)),
    RightClick((u16, u16)),
    MouseMove((u16, u16)),
    LeftDrag((u16, u16)),
    MiddleDrag((u16, u16)),
    RightDrag((u16, u16)),
    ScrollUp((u16, u16)),
    ScrollDown((u16, u16)),
    Ignore,
    Error,
}

impl PartialEq for TuiEvents {
    fn eq(&self, other: &TuiEvents) -> (r: bool) {
        match (self, other) {
            (TuiEvents::Enter, TuiEvents::Enter) => true,
            (TuiEvents::LeftArrow, TuiEvents::LeftArrow) => true,
            (TuiEvents::RightArrow, TuiEvents::RightArrow) => true,
            (TuiEvents::UpArrow, TuiEvents::UpArrow) => true,
            (TuiEvents::DownArrow, TuiEvents::DownArrow) => true,
            (TuiEvents::Escape, TuiEvents::Escape) => true,
            (TuiEvents::Backspace, TuiEvents::Backspace) => true,
            (TuiEvents::Delete, TuiEvents::Delete) => true,
            (TuiEvents::Tab, TuiEvents::Tab) => true,
            (TuiEvents::Space, TuiEvents::Space) => true,
            (TuiEvents::Ignore, TuiEvents::Ignore) => true,
            (TuiEvents::Error, TuiEvents::Error) => true,
            (TuiEvents::AsciiReadable(a), TuiEvents::AsciiReadable(b)) => *a == *b,
            (TuiEvents::Control(a), TuiEvents::Control(b)) => *a == *b,
            (TuiEvents::Other(a), TuiEvents::Other(b)) => *a == *b,
            (TuiEvents::LeftClick(a), TuiEvents::LeftClick(b)) => a.0 == b.0 && a.1 == b.1,
            (TuiEvents::MiddleClick(a), TuiEvents::MiddleClick(b)) => a.0 == b.0 && a.1 == b.1,
            (TuiEvents::RightClick(a), TuiEvents::RightClick(b)) => a.0 == b.0 && a.1 == b.1,
            (TuiEvents::MouseMove(a), TuiEvents::MouseMove(b)) => a.0 == b.0 && a.1 == b.1,
            (TuiEvents::LeftDrag(a), TuiEvents::LeftDrag(b)) => a.0 == b.0 && a.1 == b.1,
            (TuiEvents::MiddleDrag(a), TuiEvents::MiddleDrag(b)) => a.0 == b.0 && a.1 == b.1,
            (TuiEvents::RightDrag(a), TuiEvents::RightDrag(b)) => a.0 == b.0 && a.1 == b.1,
            (TuiEvents::ScrollUp(a), TuiEvents::ScrollUp(b)) => a.0 == b.0 && a.1 == b.1,
            (TuiEvents::ScrollDown(a), TuiEvents::ScrollDown(b)) => a.0 == b.0 && a.1 == b.1,
            _ => false,
        }
    }
}

impl vstd::std_specs::cmp::PartialEqSpecImpl for TuiEvents {
    open spec fn obeys_eq_spec() -> bool {
        true
    }

    open spec fn eq_spec(&self, other: &TuiEvents) -> bool {
        *self == *other
    }
}

impl TuiEvents {
    /// True for the events that a mouse report produces.
    pub open spec fn is_mouse_event(self) -> bool {
        ||| self is LeftClick
        ||| self is MiddleClick
        ||| self is RightClick
        ||| self is LeftDrag
        ||| self is MiddleDrag
        ||| self is RightDrag
        ||| self is MouseMove
        ||| self is ScrollUp
        ||| self is ScrollDown
    }

    /// Keeps keyboard events and turns every mouse event into `Ignore`.
    pub fn filter_keyboard_events(self) -> (r: TuiEvents)
        ensures
            self.is_mouse_event() ==> r == TuiEvents::Ignore,
            !self.is_mouse_event() ==> r == self,
    {
        match self {
            TuiEvents::LeftClick(_) => TuiEvents::Ignore,
            TuiEvents::MiddleClick(_) => TuiEvents::Ignore,
            TuiEvents::RightClick(_) => TuiEvents::Ignore,
            TuiEvents::LeftDrag(_) => TuiEvents::Ignore,
            TuiEvents::MiddleDrag(_) => TuiEvents::Ignore,
            TuiEvents::RightDrag(_) => TuiEvents::Ignore,
            TuiEvents::MouseMove(_) => TuiEvents::Ignore,
            TuiEvents::ScrollUp(_) => TuiEvents::Ignore,
            TuiEvents::ScrollDown(_) => TuiEvents::Ignore,
            _ => self,
        }
    }
}

} // verus!
