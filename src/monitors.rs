//! One connected output: its geometry in pixels and in the global logical
//! space, its scale, and the part of the selection that falls on it.

use vstd::prelude::*;
use crate::select_rect::{SelectRect, SubRect, min_i, max_i};

verus! {

/// The scale of an output: an integer factor, or a fractional one in 120ths,
/// which wins once the compositor has sent it.
#[derive(Debug, Clone, Copy, PartialEq, Eq, Structural)]
pub struct Scale {
    pub normal: u32,
    pub fractional: Option<u32>,
}

/// Pixels per logical unit, times 120.
pub open spec fn factor120(s: Scale) -> int {
    match s.fractional {
        Some(f) => if f == 0 { 120 } else { f as int },
        None => s.normal as int * 120,
    }
}

/// The pixel offset of logical offset `v` at a scale of `f / 120`, rounded down.
pub open spec fn to_pixels(v: int, f: int) -> int {
    v * f / 120
}

impl Scale {
    pub fn new_normal() -> (r: Scale)
        ensures
            r.normal == 1 && r.fractional is None,
            factor120(r) == 120,
    {
        Scale { normal: 1, fractional: None }
    }

    /// A scale that listens for a fractional factor; until one comes it counts as 1.
    pub fn new_fractional() -> (r: Scale)
        ensures
            r.normal == 1 && r.fractional == Some(0u32),
            factor120(r) == 120,
    {
        Scale { normal: 1, fractional: Some(0) }
    }

    pub fn is_fractional(&self) -> (r: bool)
        ensures
            r == self.fractional.is_some(),
    {
        self.fractional.is_some()
    }

    /// Records the integer factor; returns whether it changed.
    pub fn update_normal(&mut self, normal: u32) -> (changed: bool)
        ensures
            final(self).normal == normal,
            final(self).fractional == old(self).fractional,
            changed == (old(self).normal != normal),
    {
        let changed = self.normal != normal;
        self.normal = normal;
        changed
    }

    /// Records the fractional factor, if this scale listens for one; returns whether it changed.
    pub fn update_fraction(&mut self, fraction: u32) -> (changed: bool)
        ensures
            final(self).normal == old(self).normal,
            match old(self).fractional {
                Some(f) => final(self).fractional == Some(fraction) && changed == (f != fraction),
                None => final(self).fractional is None && !changed,
            },
    {
        match self.fractional {
            Some(f) => {
                self.fractional = Some(fraction);
                f != fraction
            },
            None => false,
        }
    }

    /// Pixels per logical unit, times 120.
    pub fn factor(&self) -> (r: u64)
        ensures
            r == factor120(*self),
            r <= 120 * u32::MAX,
    {
        match self.fractional {
            Some(f) => if f == 0 { 120 } else { f as u64 },
            None => self.normal as u64 * 120,
        }
    }

    /// The pixel offset of the non-negative logical offset `v`, capped at `limit`.
    pub fn calculate_pos(&self, v: i32, limit: i32) -> (r: i32)
        requires
            0 <= v,
            0 <= limit,
        ensures
            r == min_i(to_pixels(v as int, factor120(*self)), limit as int),
    {
        let f = self.factor();
        proof {
            assert((v as int) * (f as int) <= (i32::MAX as int) * (120 * u32::MAX)) by (nonlinear_arith)
                requires 0 <= v <= i32::MAX, 0 <= f <= u32::MAX * 120;
        }
        let p: u128 = (v as u128) * (f as u128) / 120;
        if p <= limit as u128 { p as i32 } else { limit }
    }
}

/// The geometry an output reports: name, logical position, pixel size and integer scale.
#[derive(Debug, Clone, PartialEq, Eq)]
pub struct Monitor {
    pub name: String,
    pub x: i32,
    pub y: i32,
    pub width: i32,
    pub height: i32,
    pub scale: i32,
}

impl Monitor {
    pub fn get_right(&self) -> (r: i64)
        ensures
            r == self.x + self.width,
    {
        self.x as i64 + self.width as i64
    }

    pub fn get_bottom(&self) -> (r: i64)
        ensures
            r == self.y + self.height,
    {
        self.y as i64 + self.height as i64
    }

    /// Every field has been reported: a name, a positive size and a positive scale.
    pub fn is_complete(&self) -> (r: bool)
        ensures
            r == (self.name@.len() > 0 && self.width > 0 && self.height > 0 && self.scale > 0),
    {
        self.name.unicode_len() > 0 && self.width > 0 && self.height > 0 && self.scale > 0
    }
}

/// One connected output, as the selection engine sees it.
#[derive(Debug, Clone)]
pub struct FoamMonitors {
    /// Index in the order the outputs were announced; tags every object bound to this output.
    pub id: usize,
    pub name: String,
    /// Pixel size.
    pub width: i32,
    pub height: i32,
    /// Position of the top-left corner in the global logical space.
    pub global_x: i32,
    pub global_y: i32,
    /// Size in the global logical space.
    pub logical_width: i32,
    pub logical_height: i32,
    pub scale: Scale,
    /// The part of the selection on this output, in its pixels.
    pub subrect: Option<SubRect>,
    pub need_redraw: bool,
}

/// The part of the selection rectangle inside the monitor, in global logical
/// coordinates `(left, top, right, bottom)`, when it has positive area.
pub open spec fn logical_overlap(m: FoamMonitors, s: SelectRect) -> Option<(int, int, int, int)> {
    let l = max_i(m.global_x as int, s.sx as int);
    let t = max_i(m.global_y as int, s.sy as int);
    let r = min_i(m.global_x + m.logical_width, s.ex as int);
    let b = min_i(m.global_y + m.logical_height, s.ey as int);
    if l < r && t < b { Some((l, t, r, b)) } else { None }
}

/// The selection projected onto the monitor's pixels: the logical overlap,
/// taken relative to the monitor's origin and scaled, capped at the pixel size.
pub open spec fn projection(m: FoamMonitors, s: SelectRect) -> Option<SubRect> {
    match logical_overlap(m, s) {
        None => None,
        Some(o) => {
            let f = factor120(m.scale);
            let x0 = min_i(to_pixels(o.0 - m.global_x, f), m.width as int);
            let x1 = min_i(to_pixels(o.2 - m.global_x, f), m.width as int);
            let y0 = min_i(to_pixels(o.1 - m.global_y, f), m.height as int);
            let y1 = min_i(to_pixels(o.3 - m.global_y, f), m.height as int);
            if x0 < x1 && y0 < y1 {
                Some(SubRect {
                    monitor_id: m.id,
                    relative_min_x: x0 as i32,
                    relative_min_y: y0 as i32,
                    width: (x1 - x0) as i32,
                    height: (y1 - y0) as i32,
                })
            } else {
                None
            }
        },
    }
}

/// `r` lies wholly inside a `w` by `h` pixel rectangle and has positive area.
pub open spec fn subrect_inside(r: SubRect, w: int, h: int) -> bool {
    &&& 0 <= r.relative_min_x && r.width > 0 && r.relative_min_x + r.width <= w
    &&& 0 <= r.relative_min_y && r.height > 0 && r.relative_min_y + r.height <= h
}

/// Which sides of a subrect get a border: those inside the monitor, not on its edge.
#[derive(Debug, Clone, Copy, PartialEq, Eq, Structural)]
pub struct BorderSides {
    pub left: bool,
    pub top: bool,
    pub right: bool,
    pub bottom: bool,
}

impl FoamMonitors {
    pub open spec fn wf(&self) -> bool {
        &&& self.width >= 0 && self.height >= 0
        &&& self.logical_width >= 0 && self.logical_height >= 0
        &&& self.global_x + self.logical_width <= i32::MAX
        &&& self.global_y + self.logical_height <= i32::MAX
        &&& self.subrect matches Some(r) ==> r.monitor_id == self.id
            && subrect_inside(r, self.width as int, self.height as int)
    }

    /// A new output with no geometry yet.
    pub fn new(id: usize) -> (r: FoamMonitors)
        ensures
            r.wf(),
            r.id == id,
            r.width == 0 && r.height == 0 && r.logical_width == 0 && r.logical_height == 0,
            r.global_x == 0 && r.global_y == 0,
            r.scale == (Scale { normal: 1, fractional: None }),
            r.subrect is None && !r.need_redraw,
    {
        FoamMonitors {
            id,
            name: String::from_str("unnamed"),
            width: 0,
            height: 0,
            global_x: 0,
            global_y: 0,
            logical_width: 0,
            logical_height: 0,
            scale: Scale::new_normal(),
            subrect: None,
            need_redraw: false,
        }
    }

    /// Pixel size and logical extent are known.
    pub fn is_complete(&self) -> (r: bool)
        ensures
            r == (self.width > 0 && self.height > 0 && self.logical_width > 0
                && self.logical_height > 0),
    {
        self.width > 0 && self.height > 0 && self.logical_width > 0 && self.logical_height > 0
    }

    /// Records the pixel size from the output's mode; a negative size is ignored.
    /// The selection's part on this output is dropped, since it was measured in the old size.
    pub fn update_mode(&mut self, width: i32, height: i32)
        requires
            old(self).wf(),
        ensures
            final(self).wf(),
            final(self).subrect is None,
            if width >= 0 && height >= 0 {
                final(self).width == width && final(self).height == height
            } else {
                final(self).width == old(self).width && final(self).height == old(self).height
            },
            final(self).id == old(self).id && final(self).scale == old(self).scale,
            final(self).name == old(self).name,
            final(self).global_x == old(self).global_x && final(self).global_y == old(self).global_y,
            final(self).logical_width == old(self).logical_width,
            final(self).logical_height == old(self).logical_height,
    {
        if width >= 0 && height >= 0 {
            self.width = width;
            self.height = height;
        }
        self.subrect = None;
    }

    /// Records the position in the global logical space; a position whose far
    /// edge would leave the range of `i32` is ignored.
    pub fn update_logical_position(&mut self, x: i32, y: i32)
        requires
            old(self).wf(),
        ensures
            final(self).wf(),
            if x + old(self).logical_width <= i32::MAX && y + old(self).logical_height <= i32::MAX {
                final(self).global_x == x && final(self).global_y == y
            } else {
                final(self).global_x == old(self).global_x && final(self).global_y == old(self).global_y
            },
            final(self).subrect is None,
            final(self).id == old(self).id && final(self).scale == old(self).scale,
            final(self).name == old(self).name,
            final(self).width == old(self).width && final(self).height == old(self).height,
            final(self).logical_width == old(self).logical_width,
            final(self).logical_height == old(self).logical_height,
    {
        if x as i64 + self.logical_width as i64 <= i32::MAX as i64
            && y as i64 + self.logical_height as i64 <= i32::MAX as i64 {
            self.global_x = x;
            self.global_y = y;
        }
        self.subrect = None;
    }

    /// Records the size in the global logical space; a negative size, or one
    /// whose far edge would leave the range of `i32`, is ignored.
    pub fn update_logical_size(&mut self, width: i32, height: i32)
        requires
            old(self).wf(),
        ensures
            final(self).wf(),
            final(self).subrect is None,
            if width >= 0 && height >= 0 && old(self).global_x + width <= i32::MAX
                && old(self).global_y + height <= i32::MAX {
                final(self).logical_width == width && final(self).logical_height == height
            } else {
                final(self).logical_width == old(self).logical_width
                    && final(self).logical_height == old(self).logical_height
            },
            final(self).id == old(self).id && final(self).scale == old(self).scale,
            final(self).name == old(self).name,
            final(self).width == old(self).width && final(self).height == old(self).height,
            final(self).global_x == old(self).global_x && final(self).global_y == old(self).global_y,
    {
        if width >= 0 && height >= 0 && self.global_x as i64 + width as i64 <= i32::MAX as i64
            && self.global_y as i64 + height as i64 <= i32::MAX as i64 {
            self.logical_width = width;
            self.logical_height = height;
        }
        self.subrect = None;
    }

    /// The selection projected onto this monitor's pixels, if it covers a part of positive area.
    pub fn project_onto(&self, rect: &SelectRect) -> (r: Option<SubRect>)
        requires
            self.wf(),
        ensures
            r == projection(*self, *rect),
            r matches Some(sr) ==> sr.monitor_id == self.id
                && subrect_inside(sr, self.width as int, self.height as int),
            r is Some ==> logical_overlap(*self, *rect) is Some,
    {
        let gx = self.global_x as i64;
        let gy = self.global_y as i64;
        let l = if gx >= rect.sx as i64 { gx } else { rect.sx as i64 };
        let t = if gy >= rect.sy as i64 { gy } else { rect.sy as i64 };
        let mr = gx + self.logical_width as i64;
        let mb = gy + self.logical_height as i64;
        let r = if mr <= rect.ex as i64 { mr } else { rect.ex as i64 };
        let b = if mb <= rect.ey as i64 { mb } else { rect.ey as i64 };
        if !(l < r && t < b) {
            return None;
        }
        let x0 = self.scale.calculate_pos((l - gx) as i32, self.width);
        let x1 = self.scale.calculate_pos((r - gx) as i32, self.width);
        let y0 = self.scale.calculate_pos((t - gy) as i32, self.height);
        let y1 = self.scale.calculate_pos((b - gy) as i32, self.height);
        if x0 < x1 && y0 < y1 {
            Some(SubRect::new(self.id, x0, y0, x1 - x0, y1 - y0))
        } else {
            None
        }
    }

    /// Sets the selection's part on this output; an empty size clears it.
    pub fn new_subrect(&mut self, x: i32, y: i32, w: i32, h: i32)
        requires
            old(self).wf(),
            w > 0 && h > 0 ==> 0 <= x && x + w <= old(self).width && 0 <= y && y + h
                <= old(self).height,
        ensures
            final(self).wf(),
            final(self).subrect == (if w <= 0 || h <= 0 {
                None
            } else {
                Some(SubRect { monitor_id: old(self).id, relative_min_x: x, relative_min_y: y, width: w, height: h })
            }),
            final(self).id == old(self).id && final(self).scale == old(self).scale,
            final(self).name == old(self).name,
            final(self).width == old(self).width && final(self).height == old(self).height,
            final(self).global_x == old(self).global_x && final(self).global_y == old(self).global_y,
            final(self).logical_width == old(self).logical_width,
            final(self).logical_height == old(self).logical_height,
            final(self).need_redraw == old(self).need_redraw,
    {
        if w <= 0 || h <= 0 {
            self.subrect = None;
        } else {
            self.subrect = Some(SubRect::new(self.id, x, y, w, h));
        }
    }

    /// Selects the whole output.
    pub fn max_rect(&mut self)
        requires
            old(self).wf(),
        ensures
            final(self).wf(),
            final(self).subrect == (if old(self).width == 0 || old(self).height == 0 {
                None
            } else {
                Some(SubRect { monitor_id: old(self).id, relative_min_x: 0, relative_min_y: 0,
                    width: old(self).width, height: old(self).height })
            }),
            final(self).id == old(self).id && final(self).scale == old(self).scale,
            final(self).name == old(self).name,
            final(self).width == old(self).width && final(self).height == old(self).height,
            final(self).global_x == old(self).global_x && final(self).global_y == old(self).global_y,
            final(self).logical_width == old(self).logical_width,
            final(self).logical_height == old(self).logical_height,
            final(self).need_redraw == old(self).need_redraw,
    {
        let (w, h) = (self.width, self.height);
        self.new_subrect(0, 0, w, h);
    }

    /// Selects nothing on this output.
    pub fn clean_rect(&mut self)
        requires
            old(self).wf(),
        ensures
            final(self).wf(),
            final(self).subrect is None,
            final(self).id == old(self).id && final(self).scale == old(self).scale,
            final(self).name == old(self).name,
            final(self).width == old(self).width && final(self).height == old(self).height,
            final(self).global_x == old(self).global_x && final(self).global_y == old(self).global_y,
            final(self).logical_width == old(self).logical_width,
            final(self).logical_height == old(self).logical_height,
            final(self).need_redraw == old(self).need_redraw,
    {
        self.new_subrect(-1, -1, -1, -1);
    }

    /// A point given relative to `src_output`'s surface, made relative to `target_output`'s.
    pub fn convert_pos_to_surface(
        src_output: &FoamMonitors,
        target_output: &FoamMonitors,
        surface_x: i32,
        surface_y: i32,
    ) -> (r: (i64, i64))
        ensures
            r.0 == src_output.global_x + surface_x - target_output.global_x,
            r.1 == src_output.global_y + surface_y - target_output.global_y,
    {
        let gx = src_output.global_x as i64 + surface_x as i64;
        let gy = src_output.global_y as i64 + surface_y as i64;
        (gx - target_output.global_x as i64, gy - target_output.global_y as i64)
    }

    /// The sides of the selection's part on this output that get a border:
    /// those that do not lie on the output's edge. `None` when nothing is selected here.
    pub fn border_sides(&self) -> (r: Option<BorderSides>)
        requires
            self.wf(),
        ensures
            match self.subrect {
                None => r is None,
                Some(sr) => r == Some(BorderSides {
                    left: sr.relative_min_x > 0,
                    top: sr.relative_min_y > 0,
                    right: sr.relative_min_x + sr.width < self.width,
                    bottom: sr.relative_min_y + sr.height < self.height,
                }),
            },
    {
        match self.subrect {
            None => None,
            Some(sr) => Some(BorderSides {
                left: sr.relative_min_x > 0,
                top: sr.relative_min_y > 0,
                right: sr.relative_min_x + sr.width < self.width,
                bottom: sr.relative_min_y + sr.height < self.height,
            }),
        }
    }
}

/// Unit cell `(x, y)` lies in the half-open rectangle `[l, r) x [t, b)`.
pub open spec fn cell_in(x: int, y: int, l: int, t: int, r: int, b: int) -> bool {
    l <= x < r && t <= y < b
}

/// Unit cell `(x, y)` lies on monitor `m` in the global logical space.
pub open spec fn cell_on_monitor(m: FoamMonitors, x: int, y: int) -> bool {
    cell_in(x, y, m.global_x as int, m.global_y as int, m.global_x + m.logical_width,
        m.global_y + m.logical_height)
}

/// Unit cell `(x, y)` lies in the selection.
pub open spec fn cell_selected(s: SelectRect, x: int, y: int) -> bool {
    cell_in(x, y, s.sx as int, s.sy as int, s.ex as int, s.ey as int)
}

/// Unit cell `(x, y)` lies in the part of the selection on `m`.
pub open spec fn cell_in_overlap(m: FoamMonitors, s: SelectRect, x: int, y: int) -> bool {
    logical_overlap(m, s) matches Some(o) && cell_in(x, y, o.0, o.1, o.2, o.3)
}

proof fn lemma_overlap_cell(m: FoamMonitors, s: SelectRect, x: int, y: int)
    ensures
        cell_in_overlap(m, s, x, y) <==> (cell_selected(s, x, y) && cell_on_monitor(m, x, y)),
{
}

/// The parts of the selection on the monitors, taken together in global
/// coordinates, are exactly the selection's intersection with the union of the monitors.
pub proof fn lemma_overlaps_cover_selection(ms: Seq<FoamMonitors>, s: SelectRect, x: int, y: int)
    ensures
        (cell_selected(s, x, y) && exists|i: int| 0 <= i < ms.len() && cell_on_monitor(#[trigger] ms[i], x, y))
            <==> exists|i: int| 0 <= i < ms.len() && cell_in_overlap(#[trigger] ms[i], s, x, y),
{
    if cell_selected(s, x, y) && exists|i: int| 0 <= i < ms.len() && cell_on_monitor(#[trigger] ms[i], x, y) {
        let i = choose|i: int| 0 <= i < ms.len() && cell_on_monitor(#[trigger] ms[i], x, y);
        lemma_overlap_cell(ms[i], s, x, y);
    }
    if exists|i: int| 0 <= i < ms.len() && cell_in_overlap(#[trigger] ms[i], s, x, y) {
        let i = choose|i: int| 0 <= i < ms.len() && cell_in_overlap(#[trigger] ms[i], s, x, y);
        lemma_overlap_cell(ms[i], s, x, y);
    }
}

proof fn lemma_to_pixels_monotone(a: int, b: int, f: int)
    requires
        0 <= a <= b,
        f >= 0,
    ensures
        to_pixels(a, f) <= to_pixels(b, f),
{
    assert(a * f <= b * f) by (nonlinear_arith)
        requires 0 <= a <= b, f >= 0;
    vstd::arithmetic::div_mod::lemma_div_is_ordered(a * f, b * f, 120);
}

proof fn lemma_to_pixels_grows(a: int, b: int, f: int)
    requires
        0 <= a < b,
        f >= 120,
    ensures
        to_pixels(a, f) < to_pixels(b, f),
{
    assert(a * f + 120 <= b * f) by (nonlinear_arith)
        requires 0 <= a < b, f >= 120;
    vstd::arithmetic::div_mod::lemma_div_is_ordered(a * f + 120, b * f, 120);
    vstd::arithmetic::div_mod::lemma_div_plus_one(a * f, 120);
    assert(a * f >= 0) by (nonlinear_arith)
        requires 0 <= a, f >= 0;
}

/// At a scale of at least 1, on a monitor whose pixel size holds its scaled
/// logical size, the selection has a projection exactly when it overlaps the
/// monitor with positive area, and the projection starts at the scaled offset
/// of the overlap.
pub proof fn lemma_projection_nonempty(m: FoamMonitors, s: SelectRect)
    requires
        m.wf(),
        factor120(m.scale) >= 120,
        to_pixels(m.logical_width as int, factor120(m.scale)) <= m.width,
        to_pixels(m.logical_height as int, factor120(m.scale)) <= m.height,
    ensures
        projection(m, s) is Some <==> logical_overlap(m, s) is Some,
        logical_overlap(m, s) matches Some(o) ==> projection(m, s) matches Some(r)
            && r.relative_min_x == to_pixels(o.0 - m.global_x, factor120(m.scale))
            && r.relative_min_y == to_pixels(o.1 - m.global_y, factor120(m.scale)),
{
    let f = factor120(m.scale);
    if let Some(o) = logical_overlap(m, s) {
        lemma_to_pixels_grows(o.0 - m.global_x, o.2 - m.global_x, f);
        lemma_to_pixels_grows(o.1 - m.global_y, o.3 - m.global_y, f);
        lemma_to_pixels_monotone(o.2 - m.global_x, m.logical_width as int, f);
        lemma_to_pixels_monotone(o.3 - m.global_y, m.logical_height as int, f);
    }
}

/// The unit cells of the half-open rectangle `[l, r) x [t, b)`.
pub open spec fn rect_cells(l: int, t: int, r: int, b: int) -> Set<(int, int)> {
    Set::new(|c: (int, int)| cell_in(c.0, c.1, l, t, r, b))
}

proof fn lemma_rect_cells_len(l: int, t: int, r: int, b: int)
    requires
        l <= r,
        t <= b,
    ensures
        rect_cells(l, t, r, b).finite(),
        rect_cells(l, t, r, b).len() == (r - l) * (b - t),
    decreases b - t + (r - l),
{
    broadcast use vstd::set::group_set_axioms;
    if t == b || l == r {
        assert(rect_cells(l, t, r, b) =~= Set::empty());
        assert((r - l) * (b - t) == 0) by (nonlinear_arith)
            requires t == b || l == r;
    } else if b - t == 1 {
        lemma_rect_cells_len(l, t, r - 1, b);
        assert(rect_cells(l, t, r, b) =~= rect_cells(l, t, r - 1, b).insert((r - 1, t)));
        assert(!rect_cells(l, t, r - 1, b).contains((r - 1, t)));
        assert((r - 1 - l) * 1 + 1 == (r - l) * 1);
    } else {
        lemma_rect_cells_len(l, t, r, b - 1);
        lemma_rect_cells_len(l, b - 1, r, b);
        assert(rect_cells(l, t, r, b) =~= rect_cells(l, t, r, b - 1) + rect_cells(l, b - 1, r, b));
        assert(rect_cells(l, t, r, b - 1).disjoint(rect_cells(l, b - 1, r, b)));
        vstd::set_lib::lemma_set_disjoint_lens(rect_cells(l, t, r, b - 1), rect_cells(l, b - 1, r, b));
        assert((r - l) * (b - 1 - t) + (r - l) * 1 == (r - l) * (b - t)) by (nonlinear_arith);
    }
}

/// The cells of the part of the selection on `m`.
pub open spec fn overlap_cells(m: FoamMonitors, s: SelectRect) -> Set<(int, int)> {
    match logical_overlap(m, s) {
        Some(o) => rect_cells(o.0, o.1, o.2, o.3),
        None => Set::empty(),
    }
}

/// The area of the part of the selection on `m`, in logical units.
pub open spec fn overlap_area(m: FoamMonitors, s: SelectRect) -> int {
    match logical_overlap(m, s) {
        Some(o) => (o.2 - o.0) * (o.3 - o.1),
        None => 0,
    }
}

pub open spec fn overlap_area_sum(ms: Seq<FoamMonitors>, s: SelectRect) -> int
    decreases ms.len(),
{
    if ms.len() == 0 { 0 } else { overlap_area_sum(ms.drop_last(), s) + overlap_area(ms.last(), s) }
}

/// The cells of the selection that lie on some monitor.
pub open spec fn covered_cells(ms: Seq<FoamMonitors>, s: SelectRect) -> Set<(int, int)> {
    Set::new(|c: (int, int)| cell_selected(s, c.0, c.1)
        && exists|i: int| 0 <= i < ms.len() && cell_on_monitor(#[trigger] ms[i], c.0, c.1))
}

/// No cell of the logical space lies on two monitors.
pub open spec fn monitors_disjoint(ms: Seq<FoamMonitors>) -> bool {
    forall|i: int, j: int, x: int, y: int| 0 <= i < j < ms.len()
        && #[trigger] cell_on_monitor(ms[i], x, y) ==> !#[trigger] cell_on_monitor(ms[j], x, y)
}

proof fn lemma_covered_len(ms: Seq<FoamMonitors>, s: SelectRect)
    requires
        monitors_disjoint(ms),
    ensures
        covered_cells(ms, s).finite(),
        covered_cells(ms, s).len() == overlap_area_sum(ms, s),
    decreases ms.len(),
{
    broadcast use vstd::set::group_set_axioms;
    if ms.len() == 0 {
        assert(covered_cells(ms, s) =~= Set::empty());
    } else {
        let pre = ms.drop_last();
        let m = ms.last();
        assert(monitors_disjoint(pre)) by {
            assert forall|i: int, j: int, x: int, y: int| 0 <= i < j < pre.len()
                && #[trigger] cell_on_monitor(pre[i], x, y) implies !#[trigger] cell_on_monitor(pre[j], x, y) by {
                assert(pre[i] == ms[i] && pre[j] == ms[j]);
            }
        }
        lemma_covered_len(pre, s);
        let oc = overlap_cells(m, s);
        match logical_overlap(m, s) {
            Some(o) => {
                lemma_rect_cells_len(o.0, o.1, o.2, o.3);
            },
            None => {},
        }
        assert(oc.finite() && oc.len() == overlap_area(m, s));
        assert forall|c: (int, int)| oc.contains(c) <==> cell_in_overlap(m, s, c.0, c.1) by {}
        assert forall|c: (int, int)| #[trigger] covered_cells(ms, s).contains(c)
            <==> (covered_cells(pre, s) + oc).contains(c) by {
            lemma_overlap_cell(m, s, c.0, c.1);
            if covered_cells(ms, s).contains(c) {
                let i = choose|i: int| 0 <= i < ms.len() && cell_on_monitor(#[trigger] ms[i], c.0, c.1);
                if i < ms.len() - 1 {
                    assert(pre[i] == ms[i]);
                }
            }
            if covered_cells(pre, s).contains(c) {
                let i = choose|i: int| 0 <= i < pre.len() && cell_on_monitor(#[trigger] pre[i], c.0, c.1);
                assert(pre[i] == ms[i]);
            }
            if oc.contains(c) {
                assert(ms[ms.len() - 1] == m);
            }
        }
        assert(covered_cells(ms, s) =~= covered_cells(pre, s) + oc);
        assert(covered_cells(pre, s).disjoint(oc)) by {
            assert forall|c: (int, int)| covered_cells(pre, s).contains(c) implies !oc.contains(c) by {
                lemma_overlap_cell(m, s, c.0, c.1);
                let i = choose|i: int| 0 <= i < pre.len() && cell_on_monitor(#[trigger] pre[i], c.0, c.1);
                assert(pre[i] == ms[i]);
                assert(cell_on_monitor(ms[i], c.0, c.1));
                assert(!cell_on_monitor(ms[ms.len() - 1], c.0, c.1));
            }
        }
        vstd::set_lib::lemma_set_disjoint_lens(covered_cells(pre, s), oc);
    }
}

/// `m` has an integer scale and a pixel size of exactly its logical size times that scale.
pub open spec fn integer_scaled(m: FoamMonitors) -> bool {
    &&& m.scale.fractional is None && m.scale.normal >= 1
    &&& m.width == m.logical_width * m.scale.normal
    &&& m.height == m.logical_height * m.scale.normal
}

/// The area, in logical units, of `m`'s projection of the selection.
pub open spec fn projected_area(m: FoamMonitors, s: SelectRect) -> int {
    match projection(m, s) {
        Some(r) => (r.width as int / m.scale.normal as int) * (r.height as int / m.scale.normal as int),
        None => 0,
    }
}

pub open spec fn projected_area_sum(ms: Seq<FoamMonitors>, s: SelectRect) -> int
    decreases ms.len(),
{
    if ms.len() == 0 { 0 } else { projected_area_sum(ms.drop_last(), s) + projected_area(ms.last(), s) }
}

proof fn lemma_integer_projection(m: FoamMonitors, s: SelectRect)
    requires
        m.wf(),
        integer_scaled(m),
    ensures
        projected_area(m, s) == overlap_area(m, s),
{
    let k = m.scale.normal as int;
    let f = factor120(m.scale);
    assert(f == k * 120);
    assert forall|v: int| 0 <= v implies #[trigger] to_pixels(v, f) == v * k by {
        assert(v * f == (v * k) * 120) by (nonlinear_arith)
            requires f == k * 120;
        vstd::arithmetic::div_mod::lemma_div_by_multiple(v * k, 120);
    }
    if let Some(o) = logical_overlap(m, s) {
        let (a, b, c, d) = (o.0 - m.global_x, o.2 - m.global_x, o.1 - m.global_y, o.3 - m.global_y);
        assert(0 <= a < b <= m.logical_width && 0 <= c < d <= m.logical_height);
        assert(to_pixels(a, f) == a * k && to_pixels(b, f) == b * k);
        assert(to_pixels(c, f) == c * k && to_pixels(d, f) == d * k);
        assert(a * k < b * k <= m.logical_width * k) by (nonlinear_arith)
            requires 0 <= a < b <= m.logical_width, k >= 1;
        assert(c * k < d * k <= m.logical_height * k) by (nonlinear_arith)
            requires 0 <= c < d <= m.logical_height, k >= 1;
        let r = projection(m, s)->0;
        assert(r.width == b * k - a * k && r.height == d * k - c * k);
        assert(b * k - a * k == (b - a) * k && d * k - c * k == (d - c) * k) by (nonlinear_arith);
        vstd::arithmetic::div_mod::lemma_div_by_multiple(b - a, k);
        vstd::arithmetic::div_mod::lemma_div_by_multiple(d - c, k);
    }
}

/// On monitors that share no cell of the logical space, each with an integer
/// scale and a pixel size of its logical size times that scale, the areas of
/// the projections of the selection, each taken back to logical units by its
/// monitor's scale, add up to the area of the selection within the monitors.
pub proof fn lemma_projection_areas_sum(ms: Seq<FoamMonitors>, s: SelectRect)
    requires
        forall|i: int| 0 <= i < ms.len() ==> (#[trigger] ms[i]).wf() && integer_scaled(ms[i]),
        monitors_disjoint(ms),
    ensures
        covered_cells(ms, s).finite(),
        projected_area_sum(ms, s) == covered_cells(ms, s).len(),
{
    lemma_covered_len(ms, s);
    lemma_area_sums_agree(ms, s);
}

proof fn lemma_area_sums_agree(ms: Seq<FoamMonitors>, s: SelectRect)
    requires
        forall|i: int| 0 <= i < ms.len() ==> (#[trigger] ms[i]).wf() && integer_scaled(ms[i]),
    ensures
        projected_area_sum(ms, s) == overlap_area_sum(ms, s),
    decreases ms.len(),
{
    if ms.len() > 0 {
        let pre = ms.drop_last();
        assert forall|i: int| 0 <= i < pre.len() implies (#[trigger] pre[i]).wf() && integer_scaled(pre[i]) by {
            assert(pre[i] == ms[i]);
        }
        lemma_area_sums_agree(pre, s);
        assert(ms[ms.len() - 1] == ms.last());
        lemma_integer_projection(ms.last(), s);
    }
}

} // verus!
