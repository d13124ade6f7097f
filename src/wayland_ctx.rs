//! The state the selection engine works on: the outputs, the pointer, the
//! capture session and the selection, with the operations over all outputs.

use vstd::prelude::*;
use std::collections::HashMap;
use std::hash::Hash;
use vstd::std_specs::hash::obeys_key_model;
use crate::config::FoamConfig;
use crate::monitors::{FoamMonitors, projection};
use crate::select_rect::{SelectRect, SubRect, Point, drag_corners};
use crate::zwlr_screencopy_mode::{ZwlrScreencopyMode, CaptureError};

verus! {

/// Where the pointer is, in global logical coordinates, and where a drag began and ended.
#[derive(Debug, Clone)]
pub struct PointerHelper {
    pub g_current_pos: Option<Point>,
    pub g_start_pos: Option<Point>,
    pub g_end_pos: Option<Point>,
    /// Output under the pointer when the drag began and ended.
    pub start_index: Option<usize>,
    pub end_index: Option<usize>,
    /// Serial of the latest pointer enter, needed to set the pointer's shape.
    pub serial: u32,
}

impl PointerHelper {
    pub fn new() -> (r: PointerHelper)
        ensures
            r.g_current_pos is None && r.g_start_pos is None && r.g_end_pos is None,
            r.start_index is None && r.end_index is None && r.serial == 0,
    {
        PointerHelper {
            g_current_pos: None,
            g_start_pos: None,
            g_end_pos: None,
            start_index: None,
            end_index: None,
            serial: 0,
        }
    }
}

/// The outputs, with the pointer, capture and selection state around them.
#[derive(Debug)]
pub struct WaylandCtx {
    /// Output on which the latest valid pointer enter happened.
    pub current_index: Option<usize>,
    /// Output whose surface sent the latest pointer event; some compositors
    /// send enters for a surface other than the one under the pointer.
    pub unknown_index: Option<usize>,
    /// The overlays show a frozen capture.
    pub current_freeze: bool,
    /// One per output, at the index of its id.
    pub foam_outputs: Vec<FoamMonitors>,
    /// Overlays that the compositor has configured.
    pub layer_ready: usize,
    pub pointer_helper: PointerHelper,
    pub config: FoamConfig,
    pub scm: ZwlrScreencopyMode,
    pub global_rect: Option<SelectRect>,
}

/// Every output is well formed and sits at the index of its id.
pub open spec fn outputs_wf(os: Seq<FoamMonitors>) -> bool {
    forall|i: int| 0 <= i < os.len() ==> (#[trigger] os[i]).wf() && os[i].id == i
}

/// Output `n` is `o` with only its selection part and redraw flag changed.
pub open spec fn same_geometry(n: FoamMonitors, o: FoamMonitors) -> bool {
    &&& n.id == o.id && n.name == o.name && n.scale == o.scale
    &&& n.width == o.width && n.height == o.height
    &&& n.global_x == o.global_x && n.global_y == o.global_y
    &&& n.logical_width == o.logical_width && n.logical_height == o.logical_height
}

/// The byte length of a full capture of `m`.
pub open spec fn canvas_len(m: FoamMonitors) -> int {
    m.width * m.height * 4
}

impl WaylandCtx {
    /// Everything but the outputs and the selection is as in `o`.
    pub open spec fn same_rest(&self, o: WaylandCtx) -> bool {
        &&& self.current_index == o.current_index && self.unknown_index == o.unknown_index
        &&& self.current_freeze == o.current_freeze && self.layer_ready == o.layer_ready
        &&& self.pointer_helper == o.pointer_helper && self.config == o.config
        &&& self.scm == o.scm
    }

    pub open spec fn wf(&self) -> bool {
        &&& outputs_wf(self.foam_outputs@)
        &&& self.scm.wf() && self.scm.outputs() == self.foam_outputs.len()
        &&& self.global_rect matches Some(r) ==> r.wf()
        &&& self.layer_ready <= self.foam_outputs.len()
    }

    /// The selection parts of the outputs, after projecting `rect` onto each.
    pub open spec fn projected(&self, old_ctx: WaylandCtx, rect: SelectRect) -> bool {
        &&& self.foam_outputs.len() == old_ctx.foam_outputs.len()
        &&& forall|i: int| 0 <= i < self.foam_outputs.len() ==> {
            &&& same_geometry(#[trigger] self.foam_outputs@[i], old_ctx.foam_outputs@[i])
            &&& self.foam_outputs@[i].subrect == projection(old_ctx.foam_outputs@[i], rect)
            &&& self.foam_outputs@[i].need_redraw == self.foam_outputs@[i].subrect is Some
        }
    }

    pub fn new(config: FoamConfig) -> (r: WaylandCtx)
        ensures
            r.wf(),
            r.foam_outputs.len() == 0,
            r.current_freeze == config.freeze,
            r.global_rect is None && r.current_index is None && r.unknown_index is None,
    {
        let freeze = config.freeze;
        WaylandCtx {
            current_index: None,
            unknown_index: None,
            current_freeze: freeze,
            foam_outputs: Vec::new(),
            layer_ready: 0,
            pointer_helper: PointerHelper::new(),
            config,
            scm: ZwlrScreencopyMode::new(0),
            global_rect: None,
        }
    }

    /// Adds an output announced by the compositor; its id is its index.
    pub fn add_output(&mut self) -> (id: usize)
        requires
            old(self).wf(),
            old(self).foam_outputs.len() < usize::MAX,
        ensures
            final(self).wf(),
            id == old(self).foam_outputs.len(),
            final(self).foam_outputs@.len() == id + 1,
            final(self).foam_outputs@.subrange(0, id as int) == old(self).foam_outputs@,
            final(self).foam_outputs@[id as int].subrect is None,
            final(self).foam_outputs@[id as int].width == 0,
            final(self).foam_outputs@[id as int].logical_width == 0,
            final(self).global_rect == old(self).global_rect,
    {
        let id = self.foam_outputs.len();
        let m = FoamMonitors::new(id);
        self.foam_outputs.push(m);
        self.scm.add_output();
        proof {
            assert(forall|i: int| 0 <= i < id ==> #[trigger] self.foam_outputs@[i] == old(self).foam_outputs@[i]);
            assert(self.foam_outputs@.subrange(0, id as int) =~= old(self).foam_outputs@);
        }
        id
    }

    /// Projects the selection onto every output: each gets the part of the
    /// selection on it, and is marked for redraw exactly when that part is not empty.
    pub fn process_subrects_and_send(&mut self)
        requires
            old(self).wf(),
            old(self).global_rect is Some,
        ensures
            final(self).wf(),
            final(self).projected(*old(self), old(self).global_rect->0),
            final(self).global_rect == old(self).global_rect,
            final(self).same_rest(*old(self)),
    {
        let rect = match &self.global_rect {
            Some(r) => r.clone_corners(),
            None => { return; },
        };
        let n = self.foam_outputs.len();
        let mut i: usize = 0;
        while i < n
            invariant
                i <= n,
                n == self.foam_outputs.len(),
                old(self).wf(),
                self.wf(),
                rect == old(self).global_rect->0,
                self.global_rect == old(self).global_rect,
                self.same_rest(*old(self)),
                self.foam_outputs.len() == old(self).foam_outputs.len(),
                forall|j: int| 0 <= j < i ==> {
                    &&& same_geometry(#[trigger] self.foam_outputs@[j], old(self).foam_outputs@[j])
                    &&& self.foam_outputs@[j].subrect == projection(old(self).foam_outputs@[j], rect)
                    &&& self.foam_outputs@[j].need_redraw == self.foam_outputs@[j].subrect is Some
                },
                forall|j: int| i <= j < n ==> #[trigger] self.foam_outputs@[j] == old(self).foam_outputs@[j],
            decreases n - i,
        {
            let sr = self.foam_outputs[i].project_onto(&rect);
            let redraw = sr.is_some();
            self.foam_outputs[i].subrect = sr;
            self.foam_outputs[i].need_redraw = redraw;
            i += 1;
        }
    }

    /// Sets the selection to the rectangle spanned by the drag's start and the
    /// pointer. Without a drag nothing changes.
    pub fn compute_global_rect(&mut self)
        requires
            old(self).wf(),
        ensures
            final(self).wf(),
            final(self).same_rest(*old(self)),
            final(self).foam_outputs == old(self).foam_outputs,
            match (old(self).pointer_helper.g_start_pos, old(self).pointer_helper.g_current_pos) {
                (Some(a), Some(b)) => final(self).global_rect matches Some(r)
                    && (r.sx as int, r.sy as int, r.ex as int, r.ey as int) == drag_corners((a.x, a.y), (b.x, b.y))
                    && r.move_origin is None && r.wf(),
                _ => final(self).global_rect == old(self).global_rect,
            },
    {
        if let (Some(a), Some(b)) = (self.pointer_helper.g_start_pos, self.pointer_helper.g_current_pos) {
            self.global_rect = Some(SelectRect::from_drag((a.x, a.y), (b.x, b.y)));
        }
    }

    /// Sets the selection to the rectangle spanned by the drag's start and the
    /// pointer, and projects it onto every output. Without a drag nothing changes.
    pub fn generate_rects_and_send_frame(&mut self)
        requires
            old(self).wf(),
        ensures
            final(self).wf(),
            final(self).same_rest(*old(self)),
            match (old(self).pointer_helper.g_start_pos, old(self).pointer_helper.g_current_pos) {
                (Some(a), Some(b)) => final(self).global_rect matches Some(r)
                    && (r.sx as int, r.sy as int, r.ex as int, r.ey as int) == drag_corners((a.x, a.y), (b.x, b.y))
                    && r.move_origin is None
                    && final(self).projected(*old(self), r),
                _ => *final(self) == *old(self),
            },
    {
        if self.pointer_helper.g_start_pos.is_none() || self.pointer_helper.g_current_pos.is_none() {
            return;
        }
        self.compute_global_rect();
        self.process_subrects_and_send();
    }

    /// Selects the whole of output `target` and nothing on the others.
    pub fn set_one_max(&mut self, target: usize)
        requires
            old(self).wf(),
        ensures
            final(self).wf(),
            final(self).foam_outputs.len() == old(self).foam_outputs.len(),
            forall|i: int| 0 <= i < final(self).foam_outputs.len() ==> {
                let o = old(self).foam_outputs@[i];
                &&& same_geometry(#[trigger] final(self).foam_outputs@[i], o)
                &&& final(self).foam_outputs@[i].need_redraw == o.need_redraw
                &&& final(self).foam_outputs@[i].subrect == (if i == target && o.width > 0 && o.height > 0 {
                    Some(SubRect { monitor_id: o.id, relative_min_x: 0, relative_min_y: 0, width: o.width, height: o.height })
                } else {
                    None
                })
            },
            final(self).global_rect == old(self).global_rect,
            final(self).same_rest(*old(self)),
    {
        let n = self.foam_outputs.len();
        let mut i: usize = 0;
        while i < n
            invariant
                i <= n,
                n == self.foam_outputs.len(),
                old(self).wf(),
                self.wf(),
                self.global_rect == old(self).global_rect,
                self.same_rest(*old(self)),
                self.foam_outputs.len() == old(self).foam_outputs.len(),
                forall|j: int| 0 <= j < i ==> {
                    let o = old(self).foam_outputs@[j];
                    &&& same_geometry(#[trigger] self.foam_outputs@[j], o)
                    &&& self.foam_outputs@[j].need_redraw == o.need_redraw
                    &&& self.foam_outputs@[j].subrect == (if j == target && o.width > 0 && o.height > 0 {
                        Some(SubRect { monitor_id: o.id, relative_min_x: 0, relative_min_y: 0, width: o.width, height: o.height })
                    } else {
                        None
                    })
                },
                forall|j: int| i <= j < n ==> #[trigger] self.foam_outputs@[j] == old(self).foam_outputs@[j],
            decreases n - i,
        {
            if i == target {
                self.foam_outputs[i].max_rect();
            } else {
                self.foam_outputs[i].clean_rect();
            }
            i += 1;
        }
    }

    /// Hands out the outputs marked for redraw that have a part of the
    /// selection, in order of id, and clears their marks.
    pub fn update_select_region(&mut self) -> (ids: Vec<usize>)
        requires
            old(self).wf(),
        ensures
            final(self).wf(),
            final(self).foam_outputs.len() == old(self).foam_outputs.len(),
            forall|k: int| 0 <= k < ids.len() ==> {
                &&& ids@[k] < old(self).foam_outputs.len()
                &&& (#[trigger] old(self).foam_outputs@[ids@[k] as int]).need_redraw
                &&& old(self).foam_outputs@[ids@[k] as int].subrect is Some
            },
            forall|k: int, l: int| 0 <= k < l < ids.len() ==> ids@[k] < ids@[l],
            forall|i: int| 0 <= i < old(self).foam_outputs.len() ==> {
                let o = old(self).foam_outputs@[i];
                &&& (o.need_redraw && o.subrect is Some) ==> ids@.contains(i as usize)
                &&& same_geometry(#[trigger] final(self).foam_outputs@[i], o)
                &&& final(self).foam_outputs@[i].subrect == o.subrect
                &&& final(self).foam_outputs@[i].need_redraw == (o.need_redraw && o.subrect is None)
            },
            final(self).global_rect == old(self).global_rect,
            final(self).same_rest(*old(self)),
    {
        let mut ids: Vec<usize> = Vec::new();
        let n = self.foam_outputs.len();
        let mut i: usize = 0;
        while i < n
            invariant
                i <= n,
                n == self.foam_outputs.len(),
                old(self).wf(),
                self.wf(),
                self.global_rect == old(self).global_rect,
                self.same_rest(*old(self)),
                self.foam_outputs.len() == old(self).foam_outputs.len(),
                forall|k: int| #![trigger ids@[k]] 0 <= k < ids.len() ==> {
                    &&& ids@[k] < i
                    &&& old(self).foam_outputs@[ids@[k] as int].need_redraw
                    &&& old(self).foam_outputs@[ids@[k] as int].subrect is Some
                },
                forall|k: int, l: int| 0 <= k < l < ids.len() ==> ids@[k] < ids@[l],
                forall|j: int| 0 <= j < i ==> {
                    let o = old(self).foam_outputs@[j];
                    &&& (o.need_redraw && o.subrect is Some) ==> ids@.contains(j as usize)
                    &&& same_geometry(#[trigger] self.foam_outputs@[j], o)
                    &&& self.foam_outputs@[j].subrect == o.subrect
                    &&& self.foam_outputs@[j].need_redraw == (o.need_redraw && o.subrect is None)
                },
                forall|j: int| i <= j < n ==> #[trigger] self.foam_outputs@[j] == old(self).foam_outputs@[j],
            decreases n - i,
        {
            if self.foam_outputs[i].need_redraw && self.foam_outputs[i].subrect.is_some() {
                let ghost prev = ids@;
                ids.push(i);
                self.foam_outputs[i].need_redraw = false;
                proof {
                    assert(ids@[ids.len() - 1] == i);
                    assert forall|x: usize| prev.contains(x) implies ids@.contains(x) by {
                        let k = choose|k: int| 0 <= k < prev.len() && prev[k] == x;
                        assert(ids@[k] == x);
                    }
                }
            }
            i += 1;
        }
        ids
    }

    /// Asks for a capture of every output that has none outstanding; returns
    /// the outputs to request a frame for, in order of id.
    pub fn request_screencopy(&mut self) -> (ids: Vec<usize>)
        requires
            old(self).wf(),
        ensures
            final(self).wf(),
            final(self).foam_outputs == old(self).foam_outputs,
            final(self).global_rect == old(self).global_rect,
            final(self).scm.copy_ready == old(self).scm.copy_ready,
            final(self).scm.base_canvas@ == old(self).scm.base_canvas@,
            final(self).current_index == old(self).current_index,
            final(self).unknown_index == old(self).unknown_index,
            final(self).current_freeze == old(self).current_freeze,
            final(self).pointer_helper == old(self).pointer_helper,
            final(self).config == old(self).config,
            final(self).layer_ready == old(self).layer_ready,
            forall|i: int| 0 <= i < final(self).scm.outputs() ==> #[trigger] final(self).scm.pending@[i],
            forall|k: int| 0 <= k < ids.len() ==> ids@[k] < old(self).foam_outputs.len()
                && !old(self).scm.pending@[ids@[k] as int],
            forall|i: int| 0 <= i < old(self).scm.outputs() && !(#[trigger] old(self).scm.pending@[i])
                ==> ids@.contains(i as usize),
    {
        let mut ids: Vec<usize> = Vec::new();
        let n = self.foam_outputs.len();
        let mut i: usize = 0;
        while i < n
            invariant
                i <= n,
                n == self.foam_outputs.len(),
                self.wf(),
                self.foam_outputs == old(self).foam_outputs,
                self.global_rect == old(self).global_rect,
                self.layer_ready == old(self).layer_ready,
                self.scm.copy_ready == old(self).scm.copy_ready,
                self.scm.base_canvas@ == old(self).scm.base_canvas@,
                self.scm.outputs() == n,
                old(self).wf(),
                old(self).scm.outputs() == n,
                self.current_index == old(self).current_index,
                self.unknown_index == old(self).unknown_index,
                self.current_freeze == old(self).current_freeze,
                self.pointer_helper == old(self).pointer_helper,
                self.config == old(self).config,
                forall|j: int| 0 <= j < i ==> #[trigger] self.scm.pending@[j],
                forall|j: int| i <= j < n ==> #[trigger] self.scm.pending@[j] == old(self).scm.pending@[j],
                forall|k: int| #![trigger ids@[k]] 0 <= k < ids.len() ==> ids@[k] < i
                    && !old(self).scm.pending@[ids@[k] as int],
                forall|j: int| 0 <= j < i && !(#[trigger] old(self).scm.pending@[j]) ==> ids@.contains(j as usize),
            decreases n - i,
        {
            let ghost prev = ids@;
            if self.scm.request_copy_one(i) {
                ids.push(i);
                proof {
                    assert(ids@[ids.len() - 1] == i);
                    assert forall|x: usize| prev.contains(x) implies ids@.contains(x) by {
                        let k = choose|k: int| 0 <= k < prev.len() && prev[k] == x;
                        assert(ids@[k] == x);
                    }
                }
            }
            i += 1;
        }
        ids
    }

    /// Ends a capture round: once every output has signalled ready, keeps the
    /// captured canvases, one per output holding `width * height * 4` bytes,
    /// and resets the ready count. On an error nothing changes.
    pub fn storage_copy_canvas(&mut self, canvases: Vec<Vec<u8>>) -> (r: Result<(), CaptureError>)
        requires
            old(self).wf(),
        ensures
            final(self).wf(),
            final(self).foam_outputs == old(self).foam_outputs,
            r is Ok <==> (old(self).scm.copy_ready == old(self).foam_outputs.len()
                && canvases.len() == old(self).foam_outputs.len()
                && forall|i: int| 0 <= i < canvases.len() ==>
                    (#[trigger] canvases@[i])@.len() == canvas_len(old(self).foam_outputs@[i])),
            r is Ok ==> final(self).scm.copy_ready == 0
                && final(self).scm.base_canvas@.len() == final(self).foam_outputs.len()
                && forall|i: int| 0 <= i < final(self).foam_outputs.len() ==>
                    (#[trigger] final(self).scm.base_canvas@[i])@.len() == canvas_len(final(self).foam_outputs@[i]),
            r is Ok ==> final(self).scm.base_canvas@ == canvases@,
            r is Err ==> *final(self) == *old(self),
    {
        let mut expected: Vec<u64> = Vec::new();
        let n = self.foam_outputs.len();
        let mut i: usize = 0;
        while i < n
            invariant
                i <= n,
                n == self.foam_outputs.len(),
                self.wf(),
                expected.len() == i,
                forall|j: int| 0 <= j < i ==> #[trigger] expected@[j] == canvas_len(self.foam_outputs@[j]),
            decreases n - i,
        {
            let w = self.foam_outputs[i].width as u64;
            let h = self.foam_outputs[i].height as u64;
            proof {
                assert(self.foam_outputs@[i as int].wf());
                assert(w * h * 4 <= u64::MAX) by (nonlinear_arith)
                    requires 0 <= w <= i32::MAX, 0 <= h <= i32::MAX;
            }
            expected.push(w * h * 4);
            i += 1;
        }
        self.scm.finish_cycle(canvases, &expected)
    }

    /// Selects the whole of output `target`: the selection becomes its logical
    /// extent, it gets all of its pixels and the other outputs nothing.
    /// An unknown output changes nothing.
    pub fn select_full_output(&mut self, target: usize)
        requires
            old(self).wf(),
        ensures
            final(self).wf(),
            target >= old(self).foam_outputs.len() ==> *final(self) == *old(self),
            target < old(self).foam_outputs.len() ==> {
                let m = old(self).foam_outputs@[target as int];
                &&& final(self).global_rect matches Some(r)
                    && r.sx == m.global_x && r.sy == m.global_y
                    && r.ex == m.global_x + m.logical_width && r.ey == m.global_y + m.logical_height
                    && r.move_origin is None
                &&& final(self).foam_outputs.len() == old(self).foam_outputs.len()
                &&& forall|i: int| 0 <= i < final(self).foam_outputs.len() ==> {
                    let o = old(self).foam_outputs@[i];
                    &&& same_geometry(#[trigger] final(self).foam_outputs@[i], o)
                    &&& final(self).foam_outputs@[i].subrect == (if i == target && o.width > 0 && o.height > 0 {
                        Some(SubRect { monitor_id: o.id, relative_min_x: 0, relative_min_y: 0, width: o.width, height: o.height })
                    } else {
                        None
                    })
                }
            },
            final(self).same_rest(*old(self)),
    {
        if target >= self.foam_outputs.len() {
            return;
        }
        let gx = self.foam_outputs[target].global_x;
        let gy = self.foam_outputs[target].global_y;
        let ex = gx + self.foam_outputs[target].logical_width;
        let ey = gy + self.foam_outputs[target].logical_height;
        self.global_rect = Some(SelectRect::new(gx, gy, ex, ey));
        self.set_one_max(target);
    }
}

/// Inserts `value` at `key` into the map held in `state_hm`, making the map first if there is none.
pub fn hs_insert<T: Eq + Hash, V>(state_hm: &mut Option<HashMap<T, V>>, key: T, value: V)
    ensures
        (*final(state_hm)) is Some,
        obeys_key_model::<T>() ==> (*final(state_hm))->0@ == (match *old(state_hm) {
            Some(m) => m@,
            None => Map::<T, V>::empty(),
        }).insert(key, value),
{
    broadcast use vstd::std_specs::hash::group_hash_axioms;
    match state_hm {
        Some(hm) => {
            hm.insert(key, value);
        },
        None => {
            let mut hm: HashMap<T, V> = HashMap::new();
            hm.insert(key, value);
            *state_hm = Some(hm);
        },
    }
}

} // verus!
