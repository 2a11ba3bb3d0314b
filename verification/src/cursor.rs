use vstd::prelude::*;
use crate::tools::Direction;

verus! {

/// The pointer shapes of the selection area.
#[derive(Clone, Copy, PartialEq, Eq, Structural, Debug)]
pub enum CursorKind {
    Arrow,
    Crosshair,
    ResizeLeftRight,
    ResizeUpDown,
}

/// The pointer over the selection area: its shape, the handle it is over,
/// and whether the button is held on that handle.
#[derive(Clone, Copy, PartialEq, Eq, Structural, Debug)]
pub struct CursorData {
    pub typ: CursorKind,
    pub over: Option<Direction>,
    pub down: bool,
}

/// The shape that shows which handle the pointer is over: a cross over a
/// corner or the middle, a horizontal or vertical arrow over a side, and the
/// plain arrow elsewhere.
pub open spec fn cursor_for(over: Option<Direction>) -> CursorKind {
    match over {
        Some(Direction::Left) | Some(Direction::Right) => CursorKind::ResizeLeftRight,
        Some(Direction::Up) | Some(Direction::Down) => CursorKind::ResizeUpDown,
        Some(_) => CursorKind::Crosshair,
        None => CursorKind::Arrow,
    }
}

impl CursorData {
    /// The button is held only while the pointer is on a handle.
    pub open spec fn consistent(self) -> bool {
        self.down ==> self.over is Some
    }

    /// After a press: the handle is grabbed if the pointer is over one.
    pub open spec fn pressed(self) -> CursorData {
        if self.over is Some {
            CursorData { down: true, ..self }
        } else {
            self
        }
    }

    /// After the button is released.
    pub open spec fn released(self) -> CursorData {
        CursorData { down: false, ..self }
    }

    /// After the pointer came over `over` (no handle where `None`).
    pub open spec fn hovered(self, over: Option<Direction>) -> CursorData {
        CursorData { typ: cursor_for(over), over, down: self.down }
    }

    /// After the pointer left the area.
    pub open spec fn left(self) -> CursorData {
        CursorData { over: None, down: false, ..self }
    }

    pub fn new(typ: CursorKind, over: Option<Direction>, down: bool) -> (c: Self)
        ensures
            c == (CursorData { typ, over, down }),
    {
        CursorData { typ, over, down }
    }

    /// A press of the button: grabs the handle under the pointer and tells
    /// whether there was one.
    pub fn press(&mut self) -> (grabbed: bool)
        ensures
            grabbed == old(self).over is Some,
            *final(self) == old(self).pressed(),
    {
        match self.over {
            Some(_) => {
                self.down = true;
                true
            },
            None => false,
        }
    }

    /// A release of the button.
    pub fn release(&mut self)
        ensures
            *final(self) == old(self).released(),
    {
        self.down = false;
    }

    /// The pointer moved over the handle `over`, or over no handle.
    pub fn hover(&mut self, over: Option<Direction>)
        ensures
            *final(self) == old(self).hovered(over),
    {
        self.typ = match over {
            Some(Direction::Left) | Some(Direction::Right) => CursorKind::ResizeLeftRight,
            Some(Direction::Up) | Some(Direction::Down) => CursorKind::ResizeUpDown,
            Some(_) => CursorKind::Crosshair,
            None => CursorKind::Arrow,
        };
        self.over = over;
    }

    /// The pointer left the area: no handle, no grab.
    pub fn leave(&mut self)
        ensures
            *final(self) == old(self).left(),
    {
        self.over = None;
        self.down = false;
    }
}

/// A grab always sits on a handle: pressing, releasing, leaving, and moving
/// while nothing is grabbed all keep the button held only over a handle.
pub proof fn lemma_cursor_consistent(c: CursorData, over: Option<Direction>)
    requires
        c.consistent(),
    ensures
        c.pressed().consistent(),
        c.released().consistent(),
        c.left().consistent(),
        !c.down ==> c.hovered(over).consistent(),
        c.hovered(over).typ == cursor_for(c.hovered(over).over),
{
}

/// Where the pointer is against the selection, as the hit test measures it
/// on the screen's coordinates: within reach of each side, strictly between
/// the two sides of each axis, and inside the middle fifth of the area.
#[derive(Clone, Copy, PartialEq, Eq, Structural, Debug)]
pub struct PointerPlace {
    pub near_left: bool,
    pub near_right: bool,
    pub near_top: bool,
    pub near_bottom: bool,
    pub between_left_right: bool,
    pub between_top_bottom: bool,
    pub in_middle: bool,
}

/// The handle under the pointer: a corner where two sides are in reach (the
/// top left first, then bottom right, bottom left, top right), then a side
/// where the pointer is also between its ends, then the middle; `Some(None)`
/// over no handle, and `None` beside a side but past its ends, where the
/// cursor stays as it was.
pub open spec fn handle_at(p: PointerPlace) -> Option<Option<Direction>> {
    if p.near_left && p.near_top {
        Some(Some(Direction::UpLeft))
    } else if p.near_right && p.near_bottom {
        Some(Some(Direction::DownRight))
    } else if p.near_left && p.near_bottom {
        Some(Some(Direction::DownLeft))
    } else if p.near_top && p.near_right {
        Some(Some(Direction::UpRight))
    } else if p.near_left {
        if p.between_top_bottom { Some(Some(Direction::Left)) } else { None }
    } else if p.near_right {
        if p.between_top_bottom { Some(Some(Direction::Right)) } else { None }
    } else if p.near_bottom {
        if p.between_left_right { Some(Some(Direction::Down)) } else { None }
    } else if p.near_top {
        if p.between_left_right { Some(Some(Direction::Up)) } else { None }
    } else if p.in_middle {
        Some(Some(Direction::All))
    } else {
        Some(None)
    }
}

/// The handle under the pointer, to hand to [`CursorData::hover`] unless it
/// is `None`.
pub fn handle_under(p: PointerPlace) -> (h: Option<Option<Direction>>)
    ensures
        h == handle_at(p),
{
    if p.near_left && p.near_top {
        Some(Some(Direction::UpLeft))
    } else if p.near_right && p.near_bottom {
        Some(Some(Direction::DownRight))
    } else if p.near_left && p.near_bottom {
        Some(Some(Direction::DownLeft))
    } else if p.near_top && p.near_right {
        Some(Some(Direction::UpRight))
    } else if p.near_left {
        if p.between_top_bottom { Some(Some(Direction::Left)) } else { None }
    } else if p.near_right {
        if p.between_top_bottom { Some(Some(Direction::Right)) } else { None }
    } else if p.near_bottom {
        if p.between_left_right { Some(Some(Direction::Down)) } else { None }
    } else if p.near_top {
        if p.between_left_right { Some(Some(Direction::Up)) } else { None }
    } else if p.in_middle {
        Some(Some(Direction::All))
    } else {
        Some(None)
    }
}

/// A side handle is only ever reported between that side's ends, and the
/// pointer is over no handle only when no side is in reach.
pub proof fn lemma_handle_sides(p: PointerPlace)
    ensures
        handle_at(p) == Some(Some(Direction::Left)) || handle_at(p) == Some(Some(Direction::Right))
            ==> p.between_top_bottom,
        handle_at(p) == Some(Some(Direction::Up)) || handle_at(p) == Some(Some(Direction::Down))
            ==> p.between_left_right,
        handle_at(p) == Some(None::<Direction>) ==> !p.near_left && !p.near_right && !p.near_top
            && !p.near_bottom && !p.in_middle,
{
}

/// The hit test in terms of what is in reach: with no side in reach the
/// pointer is over the middle handle inside the middle and over no handle
/// elsewhere; two sides that meet in a corner give a corner; the cursor is
/// kept as it is only beside a side but past its ends.
pub proof fn lemma_handle_reach(p: PointerPlace)
    ensures
        !p.near_left && !p.near_right && !p.near_top && !p.near_bottom && !p.in_middle
            ==> handle_at(p) == Some(None::<Direction>),
        !p.near_left && !p.near_right && !p.near_top && !p.near_bottom && p.in_middle
            ==> handle_at(p) == Some(Some(Direction::All)),
        p.near_left && p.near_top ==> handle_at(p) == Some(Some(Direction::UpLeft)),
        (p.near_left || p.near_right) && (p.near_top || p.near_bottom) ==> (handle_at(p) matches Some(
            Some(d),
        ) && (d is UpLeft || d is UpRight || d is DownLeft || d is DownRight)),
        handle_at(p) is None ==> ((p.near_left || p.near_right) && !p.between_top_bottom)
            || ((p.near_top || p.near_bottom) && !p.between_left_right),
        p.near_left && !p.near_top && !p.near_bottom && p.between_top_bottom
            ==> handle_at(p) == Some(Some(Direction::Left)),
        p.near_right && !p.near_left && !p.near_top && !p.near_bottom && p.between_top_bottom
            ==> handle_at(p) == Some(Some(Direction::Right)),
        p.near_top && !p.near_bottom && !p.near_left && !p.near_right && p.between_left_right
            ==> handle_at(p) == Some(Some(Direction::Up)),
        p.near_bottom && !p.near_left && !p.near_right && p.between_left_right
            ==> handle_at(p) == Some(Some(Direction::Down)),
{
}

/// The pointer's shape tells the kind of handle under it: the horizontal
/// arrow exactly over the left and right sides, the vertical arrow exactly
/// over the top and bottom sides, the cross exactly over a corner or the
/// middle, and the plain arrow exactly over no handle.
pub proof fn lemma_cursor_shapes(c: CursorData, over: Option<Direction>)
    ensures
        (c.hovered(over).typ == CursorKind::ResizeLeftRight) <==> (over == Some(Direction::Left)
            || over == Some(Direction::Right)),
        (c.hovered(over).typ == CursorKind::ResizeUpDown) <==> (over == Some(Direction::Up) || over
            == Some(Direction::Down)),
        (c.hovered(over).typ == CursorKind::Crosshair) <==> (over == Some(Direction::UpLeft) || over
            == Some(Direction::UpRight) || over == Some(Direction::DownLeft) || over == Some(
            Direction::DownRight,
        ) || over == Some(Direction::All)),
        (c.hovered(over).typ == CursorKind::Arrow) <==> over is None,
        c.hovered(over).over == over,
        c.hovered(over).down == c.down,
{
}

} // verus!
