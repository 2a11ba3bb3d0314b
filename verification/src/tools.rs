use vstd::prelude::*;

verus! {

/// The annotation tools of the editing window.
#[derive(Clone, Copy, PartialEq, Eq, Structural, Debug)]
pub enum Tools {
    No,
    Resize,
    Ellipse,
    HollowEllipse,
    Arrow,
    Text,
    Highlight,
    Redact,
    Random,
}

impl Tools {
    /// Only the text tool keeps the keyboard focus of the editing area.
    pub fn keeps_focus(&self) -> (keep: bool)
        ensures
            keep == (*self is Text),
    {
        match self {
            Tools::Text => true,
            _ => false,
        }
    }
}

/// The handle of the selection rectangle that the pointer is over.
#[derive(Clone, Copy, PartialEq, Eq, Structural, Debug)]
pub enum Direction {
    Up,
    Down,
    Right,
    Left,
    UpLeft,
    UpRight,
    DownLeft,
    DownRight,
    All,
}

} // verus!
