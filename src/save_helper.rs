//! Geometry of the output image: the box that holds every output's part of
//! the selection, and where each part is taken from and painted to.

use vstd::prelude::*;
use crate::monitors::FoamMonitors;
use crate::wayland_ctx::outputs_wf;

verus! {

/// The box of the output image in global coordinates, and the outputs that contribute to it.
#[derive(Debug, Clone)]
pub struct CaptureInfo {
    pub min_x: i64,
    pub min_y: i64,
    pub total_width: u64,
    pub total_height: u64,
    pub monitor_ids: Vec<usize>,
}

/// How one output's part is copied: from its canvas at `src_offset` with row
/// stride `stride` (bytes), `width` by `height` pixels, to `(dest_x, dest_y)` in the image.
#[derive(Debug, Clone, Copy, PartialEq, Eq, Structural)]
pub struct Placement {
    pub monitor_id: usize,
    pub src_offset: u64,
    pub stride: u64,
    pub dest_x: i64,
    pub dest_y: i64,
    pub width: i32,
    pub height: i32,
}

/// The box `(left, top, right, bottom)` that `m`'s part covers: the output's
/// origin plus the part's offset, and the part's size.
pub open spec fn part_box(m: FoamMonitors) -> (int, int, int, int) {
    let r = m.subrect->0;
    (m.global_x + r.relative_min_x, m.global_y + r.relative_min_y,
        m.global_x + r.relative_min_x + r.width, m.global_y + r.relative_min_y + r.height)
}

pub open spec fn union_box(a: (int, int, int, int), b: (int, int, int, int)) -> (int, int, int, int) {
    (if a.0 <= b.0 { a.0 } else { b.0 }, if a.1 <= b.1 { a.1 } else { b.1 },
        if a.2 >= b.2 { a.2 } else { b.2 }, if a.3 >= b.3 { a.3 } else { b.3 })
}

/// The smallest box holding the parts of all outputs that have one.
pub open spec fn bounding_box(os: Seq<FoamMonitors>) -> Option<(int, int, int, int)>
    decreases os.len(),
{
    if os.len() == 0 {
        None
    } else {
        let rest = bounding_box(os.drop_last());
        let m = os.last();
        if m.subrect is Some {
            match rest {
                Some(b) => Some(union_box(b, part_box(m))),
                None => Some(part_box(m)),
            }
        } else {
            rest
        }
    }
}

/// Ids of the outputs that have a part, in order.
pub open spec fn active_ids(os: Seq<FoamMonitors>) -> Seq<usize>
    decreases os.len(),
{
    if os.len() == 0 {
        Seq::empty()
    } else {
        let rest = active_ids(os.drop_last());
        if os.last().subrect is Some { rest.push(os.last().id) } else { rest }
    }
}

/// Numbers small enough that every sum below fits in `i64`.
proof fn lemma_part_box_bounds(m: FoamMonitors)
    requires
        m.wf(),
        m.subrect is Some,
    ensures
        i32::MIN <= part_box(m).0 < part_box(m).2 <= 2 * i32::MAX,
        i32::MIN <= part_box(m).1 < part_box(m).3 <= 2 * i32::MAX,
{
}

proof fn lemma_bounding_box_bounds(os: Seq<FoamMonitors>)
    requires
        forall|i: int| 0 <= i < os.len() ==> (#[trigger] os[i]).wf(),
    ensures
        bounding_box(os) matches Some(b) ==> i32::MIN <= b.0 < b.2 <= 2 * i32::MAX
            && i32::MIN <= b.1 < b.3 <= 2 * i32::MAX,
    decreases os.len(),
{
    if os.len() > 0 {
        lemma_bounding_box_bounds(os.drop_last());
        assert(os.last().wf());
        if os.last().subrect is Some {
            lemma_part_box_bounds(os.last());
        }
    }
}

/// The box of the output image and the outputs that contribute, or `None`
/// when no output has a part of the selection.
pub fn calculate_capture_info(outputs: &Vec<FoamMonitors>) -> (r: Option<CaptureInfo>)
    requires
        outputs_wf(outputs@),
    ensures
        match bounding_box(outputs@) {
            None => r is None,
            Some(b) => r matches Some(info) && info.min_x == b.0 && info.min_y == b.1
                && info.total_width == b.2 - b.0 && info.total_height == b.3 - b.1
                && info.monitor_ids@ == active_ids(outputs@),
        },
{
    let mut ids: Vec<usize> = Vec::new();
    let mut bounds: Option<(i64, i64, i64, i64)> = None;
    let n = outputs.len();
    let mut i: usize = 0;
    while i < n
        invariant
            i <= n,
            n == outputs.len(),
            outputs_wf(outputs@),
            ids@ == active_ids(outputs@.subrange(0, i as int)),
            match bounding_box(outputs@.subrange(0, i as int)) {
                None => bounds is None,
                Some(b) => bounds == Some((b.0 as i64, b.1 as i64, b.2 as i64, b.3 as i64)),
            },
        decreases n - i,
    {
        let ghost pre = outputs@.subrange(0, i as int);
        let ghost next = outputs@.subrange(0, i + 1);
        proof {
            assert(next.drop_last() =~= pre);
            assert(next.last() == outputs@[i as int]);
            assert(outputs@[i as int].wf());
            assert forall|j: int| 0 <= j < pre.len() implies (#[trigger] pre[j]).wf() by {
                assert(pre[j] == outputs@[j]);
            }
            lemma_bounding_box_bounds(pre);
        }
        let m = &outputs[i];
        match m.subrect {
            Some(rect) => {
                let gx = m.global_x as i64 + rect.relative_min_x as i64;
                let gy = m.global_y as i64 + rect.relative_min_y as i64;
                let right = gx + rect.width as i64;
                let bottom = gy + rect.height as i64;
                bounds = match bounds {
                    Some((px, py, pr, pb)) => Some((
                        if px <= gx { px } else { gx },
                        if py <= gy { py } else { gy },
                        if pr >= right { pr } else { right },
                        if pb >= bottom { pb } else { bottom },
                    )),
                    None => Some((gx, gy, right, bottom)),
                };
                ids.push(m.id);
            },
            None => {},
        }
        i += 1;
    }
    proof {
        assert(outputs@.subrange(0, n as int) =~= outputs@);
        lemma_bounding_box_bounds(outputs@);
    }
    match bounds {
        Some((x, y, r, b)) => Some(CaptureInfo {
            min_x: x,
            min_y: y,
            total_width: (r - x) as u64,
            total_height: (b - y) as u64,
            monitor_ids: ids,
        }),
        None => None,
    }
}

/// Where output `m`'s part is taken from in its canvas and painted to in the
/// image whose box starts at `(info.min_x, info.min_y)`; `None` when it has no part.
pub fn process_single_output(m: &FoamMonitors, info: &CaptureInfo) -> (r: Option<Placement>)
    requires
        m.wf(),
        i32::MIN <= info.min_x <= 2 * i32::MAX,
        i32::MIN <= info.min_y <= 2 * i32::MAX,
    ensures
        match m.subrect {
            None => r is None,
            Some(s) => r == Some(Placement {
                monitor_id: m.id,
                src_offset: (s.relative_min_y * m.width * 4 + s.relative_min_x * 4) as u64,
                stride: (m.width * 4) as u64,
                dest_x: (part_box(*m).0 - info.min_x) as i64,
                dest_y: (part_box(*m).1 - info.min_y) as i64,
                width: s.width,
                height: s.height,
            }),
        },
        r matches Some(p) ==> p.width > 0 && p.height > 0
            && p.src_offset + (p.height - 1) * p.stride + p.width * 4 <= m.width * m.height * 4,
{
    match m.subrect {
        None => None,
        Some(s) => {
            let w = m.width as u64;
            let x = s.relative_min_x as u64;
            let y = s.relative_min_y as u64;
            proof {
                assert(y * w * 4 + x * 4 <= u64::MAX) by (nonlinear_arith)
                    requires 0 <= y <= i32::MAX, 0 <= w <= i32::MAX, 0 <= x <= i32::MAX;
                let hh = s.height as int;
                let ww = s.width as int;
                let mh = m.height as int;
                assert(y * w * 4 + x * 4 + (hh - 1) * (w * 4) + ww * 4 <= w * mh * 4) by (nonlinear_arith)
                    requires 0 <= x, x + ww <= w, 0 <= y, y + hh <= mh, hh >= 1, ww >= 1;
                assert(w * mh * 4 == (m.width as int) * (m.height as int) * 4);
            }
            Some(Placement {
                monitor_id: m.id,
                src_offset: y * w * 4 + x * 4,
                stride: w * 4,
                dest_x: m.global_x as i64 + s.relative_min_x as i64 - info.min_x,
                dest_y: m.global_y as i64 + s.relative_min_y as i64 - info.min_y,
                width: s.width,
                height: s.height,
            })
        },
    }
}

} // verus!
