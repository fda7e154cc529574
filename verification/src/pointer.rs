//! Mouse input as the interface sees it: what happened and on which cell.
use vstd::prelude::*;

verus! {

/// What the mouse did.
#[derive(Clone, Copy, Debug, PartialEq, Eq, Structural)]
pub enum PointerKind {
    /// The wheel turned up.
    ScrollUp,
    /// The wheel turned down.
    ScrollDown,
    /// The left button went down.
    LeftDown,
    /// The pointer moved with the left button held.
    LeftDrag,
    /// The left button came up.
    LeftUp,
    /// The pointer moved with no button held.
    Moved,
    /// Anything else: another button, a horizontal wheel.
    Other,
}

/// A mouse event on the terminal cell at `(column, row)`.
#[derive(Clone, Copy, Debug, PartialEq, Eq, Structural)]
pub struct Pointer {
    pub kind: PointerKind,
    pub column: u16,
    pub row: u16,
}

impl Pointer {
    /// The event `kind` at `(column, row)`.
    pub fn new(kind: PointerKind, column: u16, row: u16) -> (pointer: Pointer)
        ensures
            pointer == (Pointer { kind, column, row }),
    {
        Pointer { kind, column, row }
    }

    /// Whether the event lies on a real cell: terminals report the last
    /// column or row for positions they cannot place.
    pub open spec fn placed(self) -> bool {
        self.column != u16::MAX && self.row != u16::MAX
    }
}

} // verus!
