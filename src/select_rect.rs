//! The selection rectangle in global logical coordinates, and its edits.

use vstd::prelude::*;
use crate::action::{Action, EditAction, h_side, v_side, is_handle, handle_of};

verus! {

/// Half-width, in logical units, of the strips and squares that grab an edge or a corner.
pub const THRESHOLD: i32 = 15;

/// The selected rectangle `[sx, ex] x [sy, ey]` in global logical coordinates.
///
/// While a move is under way it also remembers where the pointer was pressed
/// and where the rectangle stood at that moment.
#[derive(Debug, Clone, PartialEq, Eq, Structural)]
pub struct SelectRect {
    pub sx: i32,
    pub sy: i32,
    pub ex: i32,
    pub ey: i32,
    pub move_origin: Option<Point>,
    pub rect_origin: Option<Corners>,
}

/// A point in global logical coordinates.
#[derive(Debug, Clone, Copy, PartialEq, Eq, Structural)]
pub struct Point {
    pub x: i32,
    pub y: i32,
}

/// The corners of a rectangle, as remembered when a move starts.
#[derive(Debug, Clone, Copy, PartialEq, Eq, Structural)]
pub struct Corners {
    pub sx: i32,
    pub sy: i32,
    pub ex: i32,
    pub ey: i32,
}

/// The projection of the selection onto one monitor, in that monitor's pixels.
#[derive(Debug, Clone, Copy, PartialEq, Eq, Structural)]
pub struct SubRect {
    pub monitor_id: usize,
    pub relative_min_x: i32,
    pub relative_min_y: i32,
    pub width: i32,
    pub height: i32,
}

impl SubRect {
    pub fn new(id: usize, x: i32, y: i32, w: i32, h: i32) -> (r: SubRect)
        ensures
            r == (SubRect { monitor_id: id, relative_min_x: x, relative_min_y: y, width: w, height: h }),
    {
        SubRect { monitor_id: id, relative_min_x: x, relative_min_y: y, width: w, height: h }
    }
}

pub open spec fn min_i(a: int, b: int) -> int {
    if a <= b { a } else { b }
}

pub open spec fn max_i(a: int, b: int) -> int {
    if a >= b { a } else { b }
}

/// Point `(x, y)` lies within `t` of `(cx, cy)` on both axes.
pub open spec fn near_corner(x: int, y: int, cx: int, cy: int, t: int) -> bool {
    cx - t <= x <= cx + t && cy - t <= y <= cy + t
}

/// Point lies in the strip of half-width `t` around the vertical line `x = lx`, between `y0` and `y1`.
pub open spec fn near_vertical(x: int, y: int, lx: int, y0: int, y1: int, t: int) -> bool {
    lx - t <= x <= lx + t && y0 <= y <= y1
}

/// Point lies in the strip of half-width `t` around the horizontal line `y = ly`, between `x0` and `x1`.
pub open spec fn near_horizontal(x: int, y: int, ly: int, x0: int, x1: int, t: int) -> bool {
    ly - t <= y <= ly + t && x0 <= x <= x1
}

/// Point lies in some corner square or edge strip of the rectangle.
pub open spec fn in_grab_zone(sx: int, sy: int, ex: int, ey: int, x: int, y: int, t: int) -> bool {
    near_corner(x, y, sx, sy, t) || near_corner(x, y, ex, sy, t) || near_corner(x, y, sx, ey, t)
        || near_corner(x, y, ex, ey, t) || near_vertical(x, y, sx, sy, ey, t)
        || near_vertical(x, y, ex, sy, ey, t) || near_horizontal(x, y, sy, sx, ex, t)
        || near_horizontal(x, y, ey, sx, ex, t)
}

/// Point lies strictly inside the rectangle.
pub open spec fn strictly_inside(sx: int, sy: int, ex: int, ey: int, x: int, y: int) -> bool {
    sx < x < ex && sy < y < ey
}

/// The handle under point `(x, y)`: corners first, then edges, then the interior.
pub open spec fn region_at(sx: int, sy: int, ex: int, ey: int, x: int, y: int, t: int) -> EditAction {
    if near_corner(x, y, sx, sy, t) {
        EditAction::TopLeft
    } else if near_corner(x, y, ex, sy, t) {
        EditAction::TopRight
    } else if near_corner(x, y, sx, ey, t) {
        EditAction::BottomLeft
    } else if near_corner(x, y, ex, ey, t) {
        EditAction::BottomRight
    } else if near_vertical(x, y, sx, sy, ey, t) {
        EditAction::Left
    } else if near_vertical(x, y, ex, sy, ey, t) {
        EditAction::Right
    } else if near_horizontal(x, y, sy, sx, ex, t) {
        EditAction::Top
    } else if near_horizontal(x, y, ey, sx, ex, t) {
        EditAction::Bottom
    } else if strictly_inside(sx, sy, ex, ey, x, y) {
        EditAction::Move
    } else {
        EditAction::Idle
    }
}

/// Dragging the low side of `[lo, hi]` to `v`: the new interval, and whether the sides crossed.
pub open spec fn drag_low(lo: int, hi: int, v: int) -> (int, int, bool) {
    if v > hi { (hi, v, true) } else { (v, hi, false) }
}

/// Dragging the high side of `[lo, hi]` to `v`: the new interval, and whether the sides crossed.
pub open spec fn drag_high(lo: int, hi: int, v: int) -> (int, int, bool) {
    if v < lo { (v, lo, true) } else { (lo, v, false) }
}

/// Dragging side `s` (-1 low, 1 high, 0 none) of `[lo, hi]` to `v`.
pub open spec fn drag_side(lo: int, hi: int, s: int, v: int) -> (int, int, bool) {
    if s < 0 {
        drag_low(lo, hi, v)
    } else if s > 0 {
        drag_high(lo, hi, v)
    } else {
        (lo, hi, false)
    }
}

/// The corners of the rectangle spanned by two points.
pub open spec fn drag_corners(a: (i32, i32), b: (i32, i32)) -> (int, int, int, int) {
    (min_i(a.0 as int, b.0 as int), min_i(a.1 as int, b.1 as int),
        max_i(a.0 as int, b.0 as int), max_i(a.1 as int, b.1 as int))
}

/// `o` shifted by `(dx, dy)` stays within the range of `i32`.
pub open spec fn shift_fits(o: Corners, dx: int, dy: int) -> bool {
    &&& i32::MIN <= o.sx + dx <= i32::MAX && i32::MIN <= o.ex + dx <= i32::MAX
    &&& i32::MIN <= o.sy + dy <= i32::MAX && i32::MIN <= o.ey + dy <= i32::MAX
}

/// What one pointer motion of an edit does: `o` and action `act` become `n`
/// and the returned action `r` (see `SelectRect::edit`).
pub open spec fn edit_post(o: SelectRect, start: (i32, i32), end: (i32, i32), act: Action, n: SelectRect, r: Action) -> bool {
    match act {
        Action::OnEdit(EditAction::Move) => {
            let base = o.move_base(start);
            let dx = end.0 - start.0;
            let dy = end.1 - start.1;
            &&& r == act
            &&& n.move_origin == Some(Point { x: start.0, y: start.1 })
            &&& n.rect_origin == Some(base)
            &&& if shift_fits(base, dx, dy) {
                n.sx == base.sx + dx && n.ex == base.ex + dx
                    && n.sy == base.sy + dy && n.ey == base.ey + dy
            } else {
                n.same_corners(o)
            }
        },
        Action::OnEdit(a) => {
            &&& n.move_origin is None && n.rect_origin is None
            &&& if is_handle(a) {
                let c = o.dragged(a, end.0 as int, end.1 as int);
                &&& (n.sx as int, n.sy as int, n.ex as int, n.ey as int) == c
                &&& r == Action::OnEdit(o.dragged_handle(a, end.0 as int, end.1 as int))
            } else {
                n.same_corners(o) && r == act
            }
        },
        _ => {
            &&& n.move_origin is None && n.rect_origin is None
            &&& n.same_corners(o)
            &&& r == Action::OnEdit(EditAction::Idle)
        },
    }
}

/// Drags side `s` of `[lo, hi]` to `v`.
fn drag_axis(lo: i32, hi: i32, s: i8, v: i32) -> (r: (i32, i32, bool))
    ensures
        (r.0 as int, r.1 as int, r.2) == drag_side(lo as int, hi as int, s as int, v as int),
{
    if s < 0 {
        if v > hi { (hi, v, true) } else { (v, hi, false) }
    } else if s > 0 {
        if v < lo { (v, lo, true) } else { (lo, v, false) }
    } else {
        (lo, hi, false)
    }
}

impl SelectRect {
    /// Corners in order, and a move anchor only together with the corners it started from.
    pub open spec fn wf(&self) -> bool {
        &&& self.sx <= self.ex && self.sy <= self.ey
        &&& self.move_origin.is_some() == self.rect_origin.is_some()
        &&& self.rect_origin matches Some(o) ==> o.sx <= o.ex && o.sy <= o.ey
    }

    pub open spec fn corners(&self) -> Corners {
        Corners { sx: self.sx, sy: self.sy, ex: self.ex, ey: self.ey }
    }

    /// A move pressed at `start` continues the move already under way.
    pub open spec fn continues_move(&self, start: (i32, i32)) -> bool {
        self.move_origin == Some(Point { x: start.0, y: start.1 }) && self.rect_origin is Some
    }

    /// The corners a move pressed at `start` is measured from.
    pub open spec fn move_base(&self, start: (i32, i32)) -> Corners {
        if self.continues_move(start) { self.rect_origin->0 } else { self.corners() }
    }

    /// Same corners as `o`.
    pub open spec fn same_corners(&self, o: SelectRect) -> bool {
        self.sx == o.sx && self.sy == o.sy && self.ex == o.ex && self.ey == o.ey
    }

    /// The rectangle after dragging handle `a` to `(x, y)`.
    pub open spec fn dragged(&self, a: EditAction, x: int, y: int) -> (int, int, int, int) {
        let h = drag_side(self.sx as int, self.ex as int, h_side(a), x);
        let v = drag_side(self.sy as int, self.ey as int, v_side(a), y);
        (h.0, v.0, h.1, v.1)
    }

    /// The handle held after dragging handle `a` to `(x, y)`: each side that crossed its opposite is flipped.
    pub open spec fn dragged_handle(&self, a: EditAction, x: int, y: int) -> EditAction {
        let h = drag_side(self.sx as int, self.ex as int, h_side(a), x);
        let v = drag_side(self.sy as int, self.ey as int, v_side(a), y);
        handle_of(
            if h.2 { -h_side(a) } else { h_side(a) },
            if v.2 { -v_side(a) } else { v_side(a) },
        )
    }

    /// A copy of the corners and move anchors.
    pub fn clone_corners(&self) -> (r: SelectRect)
        ensures
            r == *self,
    {
        SelectRect {
            sx: self.sx,
            sy: self.sy,
            ex: self.ex,
            ey: self.ey,
            move_origin: self.move_origin,
            rect_origin: self.rect_origin,
        }
    }

    pub fn new(sx: i32, sy: i32, ex: i32, ey: i32) -> (r: SelectRect)
        ensures
            r.sx == sx && r.sy == sy && r.ex == ex && r.ey == ey,
            r.move_origin is None && r.rect_origin is None,
    {
        SelectRect { sx, sy, ex, ey, move_origin: None, rect_origin: None }
    }

    /// The rectangle spanned by the press point `a` and the current point `b`.
    pub fn from_drag(a: (i32, i32), b: (i32, i32)) -> (r: SelectRect)
        ensures
            (r.sx as int, r.sy as int, r.ex as int, r.ey as int) == drag_corners(a, b),
            r.move_origin is None && r.rect_origin is None,
            r.wf(),
    {
        let sx = if a.0 <= b.0 { a.0 } else { b.0 };
        let ex = if a.0 >= b.0 { a.0 } else { b.0 };
        let sy = if a.1 <= b.1 { a.1 } else { b.1 };
        let ey = if a.1 >= b.1 { a.1 } else { b.1 };
        SelectRect::new(sx, sy, ex, ey)
    }

    /// Applies one pointer motion of an edit to the rectangle, and returns the action that follows.
    ///
    /// `start` is where the button went down, `end` where the pointer is now.
    /// - An edge or corner handle sets its side(s) to `end`; a side dragged past
    ///   its opposite swaps with it, and the returned handle is flipped on that axis.
    /// - `Move` sets the rectangle to the corners it had when the move was pressed,
    ///   shifted by `end - start`. A press at another point starts a new move. A
    ///   shift that would leave the range of `i32` leaves the rectangle where it is.
    /// - Any other action keeps the rectangle; outside an edit it yields `OnEdit(Idle)`.
    /// Move anchors survive only a continuing move.
    pub fn edit(&mut self, start: (i32, i32), end: (i32, i32), act: Action) -> (r: Action)
        requires
            old(self).wf(),
        ensures
            final(self).wf(),
            edit_post(*old(self), start, end, act, *final(self), r),
    {
        let mut keep = false;
        if let Action::OnEdit(EditAction::Move) = act {
            if let Some(p) = self.move_origin {
                if self.rect_origin.is_some() && p.x == start.0 && p.y == start.1 {
                    keep = true;
                }
            }
        }
        if !keep {
            self.move_origin = None;
            self.rect_origin = None;
        }
        match act {
            Action::OnEdit(a) => {
                if let EditAction::Move = a {
                    let base = match self.rect_origin {
                        Some(o) => o,
                        None => Corners { sx: self.sx, sy: self.sy, ex: self.ex, ey: self.ey },
                    };
                    self.move_origin = Some(Point { x: start.0, y: start.1 });
                    self.rect_origin = Some(base);
                    let dx = end.0 as i64 - start.0 as i64;
                    let dy = end.1 as i64 - start.1 as i64;
                    let nsx = base.sx as i64 + dx;
                    let nex = base.ex as i64 + dx;
                    let nsy = base.sy as i64 + dy;
                    let ney = base.ey as i64 + dy;
                    let lo = i32::MIN as i64;
                    let hi = i32::MAX as i64;
                    if lo <= nsx && nsx <= hi && lo <= nex && nex <= hi && lo <= nsy && nsy <= hi
                        && lo <= ney && ney <= hi {
                        self.sx = nsx as i32;
                        self.ex = nex as i32;
                        self.sy = nsy as i32;
                        self.ey = ney as i32;
                    }
                    act
                } else {
                    let h = a.horizontal_side();
                    let v = a.vertical_side();
                    if h == 0 && v == 0 {
                        act
                    } else {
                        let (nsx, nex, fh) = drag_axis(self.sx, self.ex, h, end.0);
                        let (nsy, ney, fv) = drag_axis(self.sy, self.ey, v, end.1);
                        self.sx = nsx;
                        self.ex = nex;
                        self.sy = nsy;
                        self.ey = ney;
                        let nh: i8 = if fh { -h } else { h };
                        let nv: i8 = if fv { -v } else { v };
                        Action::OnEdit(EditAction::from_sides(nh, nv))
                    }
                }
            },
            _ => Action::OnEdit(EditAction::Idle),
        }
    }

    /// The handle under the global point `(gx, gy)` with grab distance `threshold`.
    ///
    /// Corner squares win over edge strips, edge strips over the interior;
    /// `Move` comes exactly for points strictly inside and in no grab zone.
    pub fn hit_region(&self, gx: i32, gy: i32, threshold: i32) -> (r: EditAction)
        ensures
            r == region_at(self.sx as int, self.sy as int, self.ex as int, self.ey as int,
                gx as int, gy as int, threshold as int),
            (r == EditAction::Move) <==> (
                strictly_inside(self.sx as int, self.sy as int, self.ex as int, self.ey as int,
                    gx as int, gy as int)
                && !in_grab_zone(self.sx as int, self.sy as int, self.ex as int, self.ey as int,
                    gx as int, gy as int, threshold as int)),
    {
        let sx = self.sx as i64;
        let sy = self.sy as i64;
        let ex = self.ex as i64;
        let ey = self.ey as i64;
        let x = gx as i64;
        let y = gy as i64;
        let t = threshold as i64;
        if sx - t <= x && x <= sx + t && sy - t <= y && y <= sy + t {
            EditAction::TopLeft
        } else if ex - t <= x && x <= ex + t && sy - t <= y && y <= sy + t {
            EditAction::TopRight
        } else if sx - t <= x && x <= sx + t && ey - t <= y && y <= ey + t {
            EditAction::BottomLeft
        } else if ex - t <= x && x <= ex + t && ey - t <= y && y <= ey + t {
            EditAction::BottomRight
        } else if sx - t <= x && x <= sx + t && sy <= y && y <= ey {
            EditAction::Left
        } else if ex - t <= x && x <= ex + t && sy <= y && y <= ey {
            EditAction::Right
        } else if sy - t <= y && y <= sy + t && sx <= x && x <= ex {
            EditAction::Top
        } else if ey - t <= y && y <= ey + t && sx <= x && x <= ex {
            EditAction::Bottom
        } else if sx < x && x < ex && sy < y && y < ey {
            EditAction::Move
        } else {
            EditAction::Idle
        }
    }
}

/// The rectangle that a drag spans does not depend on which end was pressed.
pub proof fn lemma_drag_symmetric(a: (i32, i32), b: (i32, i32))
    ensures
        drag_corners(a, b) == drag_corners(b, a),
{
}

/// The rectangle with the given corners and no move under way.
pub open spec fn rect_of(c: (int, int, int, int)) -> SelectRect {
    SelectRect {
        sx: c.0 as i32,
        sy: c.1 as i32,
        ex: c.2 as i32,
        ey: c.3 as i32,
        move_origin: None,
        rect_origin: None,
    }
}

/// Dragging an edge or corner handle to a point, and then dragging the handle
/// that came back to the same point again, changes nothing more: an edit with a
/// pointer that does not move is the identity after its first step.
pub proof fn lemma_edit_stationary_pointer(s: SelectRect, a: EditAction, x: i32, y: i32)
    requires
        s.wf(),
        is_handle(a),
    ensures
        ({
            let c = s.dragged(a, x as int, y as int);
            let a2 = s.dragged_handle(a, x as int, y as int);
            &&& is_handle(a2)
            &&& rect_of(c).dragged(a2, x as int, y as int) == c
            &&& rect_of(c).dragged_handle(a2, x as int, y as int) == a2
        }),
{
}

/// Dragging the left edge to `ex + k`, `k > 0`, gives the rectangle that
/// dragging the right edge to `ex + k` gives once the left edge has been
/// brought to `ex`, and the handle held afterwards is the right edge.
pub proof fn lemma_left_edge_flip(s: SelectRect, k: int, y: i32)
    requires
        s.wf(),
        k > 0,
        s.ex + k <= i32::MAX,
    ensures
        ({
            let x = s.ex + k;
            let flipped = SelectRect { sx: s.ex, ..s };
            &&& s.dragged(EditAction::Left, x, y as int) == flipped.dragged(EditAction::Right, x, y as int)
            &&& s.dragged(EditAction::Left, x, y as int) == (s.ex as int, s.sy as int, x, s.ey as int)
            &&& s.dragged_handle(EditAction::Left, x, y as int) == EditAction::Right
            &&& flipped.dragged_handle(EditAction::Right, x, y as int) == EditAction::Right
        }),
{
}

} // verus!
