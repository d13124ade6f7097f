//! States of the program and the edit handles of the selection rectangle.

use vstd::prelude::*;

verus! {

/// The current behaviour, or state, of the program.
#[derive(Debug, Clone, Copy, PartialEq, Eq, Structural, Hash)]
pub enum Action {
    Init,
    WaitPointerPress,
    ToggleFreeze(IsFreeze),
    OnDraw,
    OnEdit(EditAction),
    OnRecorder,
    Output,
    Exit,
}

impl Default for Action {
    fn default() -> (r: Action)
        ensures
            r == Action::Init,
    {
        Action::Init
    }
}

/// The state of the screen behind the overlays.
#[derive(Debug, Clone, Copy, PartialEq, Eq, Structural, Hash)]
pub enum IsFreeze {
    /// A fresh capture is shown frozen.
    NewFrameFreeze,
    /// The previous capture is shown again, used to reset the drawn rectangle.
    OldFrameFreeze,
    /// The live screen shows through.
    UnFreeze,
}

/// The handle of the selection rectangle that the pointer is on.
#[derive(Debug, Clone, Copy, PartialEq, Eq, Structural, Hash)]
pub enum EditAction {
    /// The pointer has nothing to do with the rectangle.
    Idle,
    Left,
    Right,
    Top,
    Bottom,
    TopLeft,
    TopRight,
    BottomLeft,
    BottomRight,
    /// The pointer is inside the rectangle: dragging moves it.
    Move,
}

impl Default for EditAction {
    fn default() -> (r: EditAction)
        ensures
            r == EditAction::Idle,
    {
        EditAction::Idle
    }
}

/// Pointer shapes that the overlay asks the compositor for.
#[derive(Debug, Clone, Copy, PartialEq, Eq, Structural, Hash)]
pub enum CursorShape {
    Default,
    Crosshair,
    EwResize,
    NsResize,
    NwseResize,
    NeswResize,
    Move,
}

/// Horizontal side that a handle drags: -1 the left edge, 1 the right edge, 0 neither.
pub open spec fn h_side(a: EditAction) -> int {
    match a {
        EditAction::Left | EditAction::TopLeft | EditAction::BottomLeft => -1,
        EditAction::Right | EditAction::TopRight | EditAction::BottomRight => 1,
        _ => 0,
    }
}

/// Vertical side that a handle drags: -1 the top edge, 1 the bottom edge, 0 neither.
pub open spec fn v_side(a: EditAction) -> int {
    match a {
        EditAction::Top | EditAction::TopLeft | EditAction::TopRight => -1,
        EditAction::Bottom | EditAction::BottomLeft | EditAction::BottomRight => 1,
        _ => 0,
    }
}

/// An edge or a corner handle.
pub open spec fn is_handle(a: EditAction) -> bool {
    h_side(a) != 0 || v_side(a) != 0
}

/// The handle that drags the given horizontal and vertical sides.
pub open spec fn handle_of(h: int, v: int) -> EditAction {
    if h < 0 {
        if v < 0 {
            EditAction::TopLeft
        } else if v > 0 {
            EditAction::BottomLeft
        } else {
            EditAction::Left
        }
    } else if h > 0 {
        if v < 0 {
            EditAction::TopRight
        } else if v > 0 {
            EditAction::BottomRight
        } else {
            EditAction::Right
        }
    } else {
        if v < 0 {
            EditAction::Top
        } else if v > 0 {
            EditAction::Bottom
        } else {
            EditAction::Idle
        }
    }
}

pub open spec fn cursor_shape_of(a: EditAction) -> CursorShape {
    match a {
        EditAction::Idle => CursorShape::Crosshair,
        EditAction::Left | EditAction::Right => CursorShape::EwResize,
        EditAction::Top | EditAction::Bottom => CursorShape::NsResize,
        EditAction::TopLeft | EditAction::BottomRight => CursorShape::NwseResize,
        EditAction::TopRight | EditAction::BottomLeft => CursorShape::NeswResize,
        EditAction::Move => CursorShape::Move,
    }
}

impl EditAction {
    /// The pointer shape shown over this handle.
    pub fn to_cursor_shape(&self) -> (r: CursorShape)
        ensures
            r == cursor_shape_of(*self),
    {
        match self {
            EditAction::Idle => CursorShape::Crosshair,
            EditAction::Left | EditAction::Right => CursorShape::EwResize,
            EditAction::Top | EditAction::Bottom => CursorShape::NsResize,
            EditAction::TopLeft | EditAction::BottomRight => CursorShape::NwseResize,
            EditAction::TopRight | EditAction::BottomLeft => CursorShape::NeswResize,
            EditAction::Move => CursorShape::Move,
        }
    }

    /// The horizontal side this handle drags.
    pub fn horizontal_side(&self) -> (r: i8)
        ensures
            r as int == h_side(*self),
    {
        match self {
            EditAction::Left | EditAction::TopLeft | EditAction::BottomLeft => -1,
            EditAction::Right | EditAction::TopRight | EditAction::BottomRight => 1,
            _ => 0,
        }
    }

    /// The vertical side this handle drags.
    pub fn vertical_side(&self) -> (r: i8)
        ensures
            r as int == v_side(*self),
    {
        match self {
            EditAction::Top | EditAction::TopLeft | EditAction::TopRight => -1,
            EditAction::Bottom | EditAction::BottomLeft | EditAction::BottomRight => 1,
            _ => 0,
        }
    }

    /// The handle that drags the given sides (negative: left or top, positive: right or bottom).
    pub fn from_sides(h: i8, v: i8) -> (r: EditAction)
        ensures
            r == handle_of(h as int, v as int),
    {
        if h < 0 {
            if v < 0 {
                EditAction::TopLeft
            } else if v > 0 {
                EditAction::BottomLeft
            } else {
                EditAction::Left
            }
        } else if h > 0 {
            if v < 0 {
                EditAction::TopRight
            } else if v > 0 {
                EditAction::BottomRight
            } else {
                EditAction::Right
            }
        } else {
            if v < 0 {
                EditAction::Top
            } else if v > 0 {
                EditAction::Bottom
            } else {
                EditAction::Idle
            }
        }
    }
}

} // verus!
