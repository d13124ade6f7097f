//! The state machine of a run: how pointer, keyboard and compositor events
//! move the program between its states and change the selection.

use vstd::prelude::*;
use crate::action::{Action, EditAction, IsFreeze, CursorShape, cursor_shape_of};
use crate::config::FoamConfig;
use crate::notify::{Notification, NotificationLevel};
use crate::monitors::FoamMonitors;
use crate::select_rect::{SelectRect, SubRect, Point, THRESHOLD, region_at, drag_corners, edit_post};
use crate::wayland_ctx::{WaylandCtx, same_geometry};

verus! {

/// Key code of Escape.
pub const KEY_ESC: u32 = 1;
/// Key code of `a`.
pub const KEY_A: u32 = 30;
/// Key code of `s`.
pub const KEY_S: u32 = 31;
/// Key code of `f`.
pub const KEY_F: u32 = 33;

/// A run of the program: its state and the action it is in.
#[derive(Debug)]
pub struct FoamShot {
    pub wlctx: WaylandCtx,
    pub action: Action,
    /// The action to return to once a change of freeze has been carried out.
    pub resume: Action,
}

/// The action a press of `key` leads to from `a`, with the screen frozen or not.
pub open spec fn key_action(a: Action, key: u32, freeze: bool) -> Action {
    if key == KEY_S {
        match a {
            Action::Init | Action::WaitPointerPress | Action::Exit => a,
            _ => Action::Output,
        }
    } else if key == KEY_F {
        Action::ToggleFreeze(if !freeze { IsFreeze::NewFrameFreeze } else { IsFreeze::UnFreeze })
    } else if key == KEY_ESC {
        match a {
            Action::OnEdit(_) => Action::ToggleFreeze(
                if freeze { IsFreeze::OldFrameFreeze } else { IsFreeze::UnFreeze },
            ),
            _ => Action::Exit,
        }
    } else {
        a
    }
}

/// The action a button release leads to from `a`: a drawn rectangle of
/// positive area goes to editing or to output, an empty one back to waiting;
/// an edit waits for the next press.
pub open spec fn release_action(a: Action, rect: Option<SelectRect>, edit: bool) -> Action {
    match a {
        Action::OnDraw => match rect {
            Some(r) if r.sx < r.ex && r.sy < r.ey => if edit {
                Action::OnEdit(EditAction::Idle)
            } else {
                Action::Output
            },
            _ => Action::WaitPointerPress,
        },
        Action::OnEdit(_) => Action::OnEdit(EditAction::Idle),
        _ => a,
    }
}

/// The point on `m`'s surface that an enter at `(x, y)` means: the point itself
/// when it lies within the surface, else the point read as global and made local.
pub open spec fn enter_local(m: FoamMonitors, x: int, y: int) -> (int, int) {
    if 0 <= x <= m.logical_width && 0 <= y <= m.logical_height {
        (x, y)
    } else {
        (x - m.global_x, y - m.global_y)
    }
}

/// A local point lies within `m`'s surface.
pub open spec fn on_surface(m: FoamMonitors, p: (int, int)) -> bool {
    0 <= p.0 <= m.logical_width && 0 <= p.1 <= m.logical_height
}

/// The global point of the surface-local point `(x, y)` on `m`.
pub open spec fn global_of(m: FoamMonitors, x: int, y: int) -> (int, int) {
    (m.global_x + x, m.global_y + y)
}

pub open spec fn fits_i32(v: int) -> bool {
    i32::MIN <= v <= i32::MAX
}

impl FoamShot {
    pub open spec fn wf(&self) -> bool {
        self.wlctx.wf()
    }

    pub fn new(config: FoamConfig) -> (r: FoamShot)
        ensures
            r.wf(),
            r.action == Action::Init && r.resume == Action::Init,
            r.wlctx.foam_outputs.len() == 0,
            r.wlctx.current_freeze == config.freeze,
    {
        FoamShot { wlctx: WaylandCtx::new(config), action: Action::Init, resume: Action::Init }
    }

    /// A key was pressed.
    /// - `a` selects the whole output the pointer is on and goes to output.
    /// - `s` goes to output from any state but `Init`, `WaitPointerPress` and `Exit`.
    /// - `f` flips the freeze and asks for the change to be carried out.
    /// - Escape leaves an edit for the freeze state it came from, and exits from anywhere else.
    pub fn key_pressed(&mut self, key: u32)
        requires
            old(self).wf(),
        ensures
            final(self).wf(),
            key == KEY_A ==> match old(self).wlctx.current_index {
                Some(i) if i < old(self).wlctx.foam_outputs.len() => {
                    let m = old(self).wlctx.foam_outputs@[i as int];
                    &&& final(self).action == Action::Output
                    &&& final(self).wlctx.global_rect matches Some(r)
                        && r.sx == m.global_x && r.sy == m.global_y
                        && r.ex == m.global_x + m.logical_width
                        && r.ey == m.global_y + m.logical_height
                    &&& final(self).wlctx.foam_outputs.len() == old(self).wlctx.foam_outputs.len()
                    &&& forall|j: int| 0 <= j < final(self).wlctx.foam_outputs.len() && j != i
                        ==> (#[trigger] final(self).wlctx.foam_outputs@[j]).subrect is None
                    &&& final(self).wlctx.foam_outputs@[i as int].subrect == (if m.width > 0 && m.height > 0 {
                        Some(SubRect { monitor_id: i, relative_min_x: 0, relative_min_y: 0, width: m.width, height: m.height })
                    } else {
                        None
                    })
                },
                _ => *final(self) == *old(self),
            },
            key != KEY_A ==> final(self).action == key_action(old(self).action, key, old(self).wlctx.current_freeze),
            key == KEY_F ==> final(self).wlctx.current_freeze == !old(self).wlctx.current_freeze,
            key == KEY_F ==> final(self).resume == (match old(self).action {
                Action::ToggleFreeze(_) => old(self).resume,
                _ => old(self).action,
            }),
            key == KEY_ESC && old(self).action is OnEdit ==> final(self).resume == Action::WaitPointerPress,
            key != KEY_F ==> final(self).wlctx.current_freeze == old(self).wlctx.current_freeze,
            key != KEY_A ==> final(self).wlctx.foam_outputs == old(self).wlctx.foam_outputs
                && final(self).wlctx.global_rect == old(self).wlctx.global_rect,
    {
        if key == KEY_A {
            match self.wlctx.current_index {
                Some(i) => {
                    if i < self.wlctx.foam_outputs.len() {
                        self.wlctx.select_full_output(i);
                        self.action = Action::Output;
                    }
                },
                None => {},
            }
        } else if key == KEY_S {
            match self.action {
                Action::Init | Action::WaitPointerPress | Action::Exit => {},
                _ => {
                    self.action = Action::Output;
                },
            }
        } else if key == KEY_F {
            if let Action::ToggleFreeze(_) = self.action {
            } else {
                self.resume = self.action;
            }
            self.wlctx.current_freeze = !self.wlctx.current_freeze;
            self.action = if self.wlctx.current_freeze {
                Action::ToggleFreeze(IsFreeze::NewFrameFreeze)
            } else {
                Action::ToggleFreeze(IsFreeze::UnFreeze)
            };
        } else if key == KEY_ESC {
            match self.action {
                Action::OnEdit(_) => {
                    self.resume = Action::WaitPointerPress;
                    self.action = if self.wlctx.current_freeze {
                        Action::ToggleFreeze(IsFreeze::OldFrameFreeze)
                    } else {
                        Action::ToggleFreeze(IsFreeze::UnFreeze)
                    };
                },
                _ => {
                    self.action = Action::Exit;
                },
            }
        }
    }

    /// A button went down (`pressed`) or up.
    /// - Down while waiting: drawing starts at the pointer.
    /// - Down while editing with no handle held: the handle under the pointer is taken.
    /// - Up while drawing: the drag ends; see `release_action`.
    /// - Up while editing: the handle is let go.
    pub fn pointer_button(&mut self, pressed: bool)
        requires
            old(self).wf(),
        ensures
            final(self).wf(),
            final(self).wlctx.config == old(self).wlctx.config,
            final(self).wlctx.current_freeze == old(self).wlctx.current_freeze,
            final(self).resume == old(self).resume,
            pressed && old(self).action == Action::WaitPointerPress ==> {
                &&& final(self).action == Action::OnDraw
                &&& final(self).wlctx.pointer_helper.g_start_pos == old(self).wlctx.pointer_helper.g_current_pos
                &&& final(self).wlctx.pointer_helper.start_index == old(self).wlctx.current_index
                &&& old(self).wlctx.pointer_helper.g_current_pos matches Some(p) ==>
                    final(self).wlctx.global_rect matches Some(r)
                    && r.sx == p.x && r.ex == p.x && r.sy == p.y && r.ey == p.y
            },
            pressed && old(self).action == Action::OnEdit(EditAction::Idle) ==> {
                &&& final(self).wlctx.pointer_helper.g_start_pos == old(self).wlctx.pointer_helper.g_current_pos
                &&& final(self).wlctx.global_rect == old(self).wlctx.global_rect
                &&& final(self).action == match (old(self).wlctx.pointer_helper.g_current_pos, old(self).wlctx.global_rect) {
                    (Some(p), Some(r)) => Action::OnEdit(region_at(r.sx as int, r.sy as int, r.ex as int,
                        r.ey as int, p.x as int, p.y as int, THRESHOLD as int)),
                    _ => old(self).action,
                }
            },
            pressed && old(self).action != Action::WaitPointerPress
                && old(self).action != Action::OnEdit(EditAction::Idle) ==> *final(self) == *old(self),
            !pressed ==> final(self).action == release_action(old(self).action, old(self).wlctx.global_rect,
                old(self).wlctx.config.edit),
            !pressed ==> final(self).wlctx.global_rect == old(self).wlctx.global_rect
                && final(self).wlctx.foam_outputs == old(self).wlctx.foam_outputs,
            !pressed && old(self).action == Action::OnDraw ==>
                final(self).wlctx.pointer_helper.g_end_pos == old(self).wlctx.pointer_helper.g_current_pos
                && final(self).wlctx.pointer_helper.end_index == old(self).wlctx.current_index,
    {
        if pressed {
            match self.action {
                Action::WaitPointerPress => {
                    self.action = Action::OnDraw;
                    self.wlctx.pointer_helper.start_index = self.wlctx.current_index;
                    self.wlctx.pointer_helper.g_start_pos = self.wlctx.pointer_helper.g_current_pos;
                    self.wlctx.generate_rects_and_send_frame();
                },
                Action::OnEdit(EditAction::Idle) => {
                    self.wlctx.pointer_helper.g_start_pos = self.wlctx.pointer_helper.g_current_pos;
                    match (self.wlctx.pointer_helper.g_current_pos, &self.wlctx.global_rect) {
                        (Some(p), Some(r)) => {
                            let region = r.hit_region(p.x, p.y, THRESHOLD);
                            self.action = Action::OnEdit(region);
                        },
                        _ => {},
                    }
                },
                _ => {},
            }
        } else {
            match self.action {
                Action::OnDraw => {
                    self.wlctx.pointer_helper.end_index = self.wlctx.current_index;
                    self.wlctx.pointer_helper.g_end_pos = self.wlctx.pointer_helper.g_current_pos;
                    let drawn = match &self.wlctx.global_rect {
                        Some(r) => r.sx < r.ex && r.sy < r.ey,
                        None => false,
                    };
                    self.action = if !drawn {
                        Action::WaitPointerPress
                    } else if self.wlctx.config.edit {
                        Action::OnEdit(EditAction::Idle)
                    } else {
                        Action::Output
                    };
                },
                Action::OnEdit(_) => {
                    self.action = Action::OnEdit(EditAction::Idle);
                },
                _ => {},
            }
        }
    }

    /// The pointer entered the surface of output `surface` at `(surface_x, surface_y)`.
    ///
    /// Returns whether the output is known. An enter whose point lies on the
    /// surface (see `enter_local`) makes that output the current one and, the
    /// first time, the one a drag is measured from, and sets the pointer's
    /// global position if none is known yet. With full-screen selection it
    /// selects that output whole and goes to output instead.
    pub fn pointer_enter(&mut self, surface: usize, surface_x: i32, surface_y: i32, serial: u32) -> (known: bool)
        requires
            old(self).wf(),
        ensures
            final(self).wf(),
            known == (surface < old(self).wlctx.foam_outputs.len()),
            final(self).wlctx.pointer_helper.serial == serial,
            final(self).wlctx.config == old(self).wlctx.config,
            final(self).wlctx.current_freeze == old(self).wlctx.current_freeze,
            !known ==> final(self).action == old(self).action
                && final(self).wlctx.foam_outputs == old(self).wlctx.foam_outputs
                && final(self).wlctx.global_rect == old(self).wlctx.global_rect
                && final(self).wlctx.current_index == old(self).wlctx.current_index
                && final(self).wlctx.unknown_index == old(self).wlctx.unknown_index,
            known ==> {
                let m = old(self).wlctx.foam_outputs@[surface as int];
                let lp = enter_local(m, surface_x as int, surface_y as int);
                let g = global_of(m, lp.0, lp.1);
                &&& final(self).wlctx.unknown_index == Some(surface)
                &&& !on_surface(m, lp) ==> final(self).action == old(self).action
                    && final(self).wlctx.foam_outputs == old(self).wlctx.foam_outputs
                    && final(self).wlctx.global_rect == old(self).wlctx.global_rect
                    && final(self).wlctx.current_index == old(self).wlctx.current_index
                &&& on_surface(m, lp) && old(self).wlctx.config.full_screen ==> {
                    &&& final(self).action == Action::Output
                    &&& final(self).wlctx.global_rect matches Some(r)
                        && r.sx == m.global_x && r.sy == m.global_y
                        && r.ex == m.global_x + m.logical_width && r.ey == m.global_y + m.logical_height
                }
                &&& on_surface(m, lp) && !old(self).wlctx.config.full_screen ==> {
                    &&& final(self).action == old(self).action
                    &&& final(self).wlctx.current_index == Some(surface)
                    &&& final(self).wlctx.pointer_helper.start_index == (match old(self).wlctx.pointer_helper.start_index {
                        Some(i) => Some(i),
                        None => Some(surface),
                    })
                    &&& final(self).wlctx.pointer_helper.g_current_pos == (match old(self).wlctx.pointer_helper.g_current_pos {
                        Some(p) => Some(p),
                        None => Some(Point { x: g.0 as i32, y: g.1 as i32 }),
                    })
                    &&& final(self).wlctx.foam_outputs == old(self).wlctx.foam_outputs
                    &&& final(self).wlctx.global_rect == old(self).wlctx.global_rect
                }
            },
    {
        self.wlctx.pointer_helper.serial = serial;
        if surface >= self.wlctx.foam_outputs.len() {
            return false;
        }
        self.wlctx.unknown_index = Some(surface);
        let gx = self.wlctx.foam_outputs[surface].global_x as i64;
        let gy = self.wlctx.foam_outputs[surface].global_y as i64;
        let lw = self.wlctx.foam_outputs[surface].logical_width as i64;
        let lh = self.wlctx.foam_outputs[surface].logical_height as i64;
        proof {
            assert(self.wlctx.foam_outputs@[surface as int].wf());
        }
        let sx = surface_x as i64;
        let sy = surface_y as i64;
        let (lx, ly) = if 0 <= sx && sx <= lw && 0 <= sy && sy <= lh {
            (sx, sy)
        } else {
            (sx - gx, sy - gy)
        };
        if !(0 <= lx && lx <= lw && 0 <= ly && ly <= lh) {
            return true;
        }
        if self.wlctx.config.full_screen {
            self.wlctx.select_full_output(surface);
            self.action = Action::Output;
            return true;
        }
        self.wlctx.current_index = Some(surface);
        if self.wlctx.pointer_helper.start_index.is_none() {
            self.wlctx.pointer_helper.start_index = Some(surface);
        }
        if self.wlctx.pointer_helper.g_current_pos.is_none() {
            self.wlctx.pointer_helper.g_current_pos = Some(Point { x: (gx + lx) as i32, y: (gy + ly) as i32 });
        }
        true
    }

    /// The pointer moved to `(surface_x, surface_y)` on the surface that sent
    /// the latest enter; the point is made global through that output's origin.
    ///
    /// Nothing happens before a valid enter, or for a point outside the range
    /// of `i32`. Otherwise the pointer's global position is updated, and
    /// - while drawing, the selection follows the drag;
    /// - while editing, the returned shape is the one for the handle under the
    ///   pointer, and a held handle edits the selection (see `SelectRect::edit`),
    ///   which is projected anew onto every output.
    pub fn pointer_motion(&mut self, surface_x: i32, surface_y: i32) -> (cursor: Option<CursorShape>)
        requires
            old(self).wf(),
        ensures
            final(self).wf(),
            final(self).wlctx.config == old(self).wlctx.config,
            final(self).wlctx.current_freeze == old(self).wlctx.current_freeze,
            final(self).resume == old(self).resume,
            match (old(self).wlctx.unknown_index, old(self).wlctx.pointer_helper.start_index) {
                (Some(u), Some(_)) if u < old(self).wlctx.foam_outputs.len() => {
                    let g = global_of(old(self).wlctx.foam_outputs@[u as int], surface_x as int, surface_y as int);
                    let p = Point { x: g.0 as i32, y: g.1 as i32 };
                    let start = old(self).wlctx.pointer_helper.g_start_pos;
                    let rect = old(self).wlctx.global_rect;
                    if fits_i32(g.0) && fits_i32(g.1) {
                        &&& final(self).wlctx.pointer_helper.g_current_pos == Some(p)
                        &&& final(self).wlctx.pointer_helper.g_start_pos == start
                        &&& match old(self).action {
                            Action::OnDraw => {
                                &&& cursor is None
                                &&& final(self).action == Action::OnDraw
                                &&& start matches Some(a) ==> final(self).wlctx.global_rect matches Some(r)
                                    && (r.sx as int, r.sy as int, r.ex as int, r.ey as int)
                                        == drag_corners((a.x, a.y), (p.x, p.y))
                                    && final(self).wlctx.projected(old(self).wlctx, r)
                            },
                            Action::OnEdit(a) => {
                                &&& cursor == (match rect {
                                    Some(r) => Some(cursor_shape_of(region_at(r.sx as int, r.sy as int,
                                        r.ex as int, r.ey as int, g.0, g.1, THRESHOLD as int))),
                                    None => None,
                                })
                                &&& if a != EditAction::Idle && start is Some && rect is Some {
                                    let sp = start->0;
                                    &&& final(self).wlctx.global_rect matches Some(nr)
                                        && edit_post(rect->0, (sp.x, sp.y), (p.x, p.y), old(self).action,
                                            nr, final(self).action)
                                        && final(self).wlctx.projected(old(self).wlctx, nr)
                                } else {
                                    &&& final(self).action == old(self).action
                                    &&& final(self).wlctx.global_rect == rect
                                    &&& final(self).wlctx.foam_outputs == old(self).wlctx.foam_outputs
                                }
                            },
                            _ => {
                                &&& cursor is None
                                &&& final(self).action == old(self).action
                                &&& final(self).wlctx.global_rect == rect
                                &&& final(self).wlctx.foam_outputs == old(self).wlctx.foam_outputs
                            },
                        }
                    } else {
                        cursor is None && *final(self) == *old(self)
                    }
                },
                _ => cursor is None && *final(self) == *old(self),
            },
    {
        let u = match (self.wlctx.unknown_index, self.wlctx.pointer_helper.start_index) {
            (Some(u), Some(_)) => u,
            _ => { return None; },
        };
        if u >= self.wlctx.foam_outputs.len() {
            return None;
        }
        let gx = self.wlctx.foam_outputs[u].global_x as i64 + surface_x as i64;
        let gy = self.wlctx.foam_outputs[u].global_y as i64 + surface_y as i64;
        if !(i32::MIN as i64 <= gx && gx <= i32::MAX as i64 && i32::MIN as i64 <= gy && gy <= i32::MAX as i64) {
            return None;
        }
        let p = Point { x: gx as i32, y: gy as i32 };
        self.wlctx.pointer_helper.g_current_pos = Some(p);
        match self.action {
            Action::OnDraw => {
                self.wlctx.generate_rects_and_send_frame();
                None
            },
            Action::OnEdit(a) => {
                let (cursor, mut rect) = match &self.wlctx.global_rect {
                    Some(r) => (Some(r.hit_region(p.x, p.y, THRESHOLD).to_cursor_shape()), r.clone_corners()),
                    None => { return None; },
                };
                match self.wlctx.pointer_helper.g_start_pos {
                    Some(sp) => {
                        if a != EditAction::Idle {
                            let next = rect.edit((sp.x, sp.y), (p.x, p.y), self.action);
                            self.action = next;
                            self.wlctx.global_rect = Some(rect);
                            self.wlctx.process_subrects_and_send();
                        }
                    },
                    None => {},
                }
                cursor
            },
            _ => None,
        }
    }

    /// The change of freeze has been carried out: the action in force before
    /// it comes back. Back to waiting, the selection is dropped.
    pub fn finish_toggle(&mut self)
        requires
            old(self).wf(),
        ensures
            final(self).wf(),
            final(self).action == old(self).resume,
            old(self).resume == Action::WaitPointerPress ==> final(self).wlctx.global_rect is None
                && final(self).wlctx.foam_outputs.len() == old(self).wlctx.foam_outputs.len()
                && forall|i: int| 0 <= i < final(self).wlctx.foam_outputs.len() ==>
                    (#[trigger] final(self).wlctx.foam_outputs@[i]).subrect is None
                    && same_geometry(final(self).wlctx.foam_outputs@[i], old(self).wlctx.foam_outputs@[i]),
            old(self).resume != Action::WaitPointerPress ==> final(self).wlctx == old(self).wlctx,
    {
        self.action = self.resume;
        if let Action::WaitPointerPress = self.resume {
            self.wlctx.global_rect = None;
            self.wlctx.set_one_max(self.wlctx.foam_outputs.len());
        }
    }

    /// The compositor configured an output's overlay at the given size.
    /// While starting up, a configure of positive size counts, and the overlay
    /// is to be shown (true); once every output's overlay is configured the
    /// count starts over, the freeze setting takes effect and the program
    /// waits for a press. Any other configure changes nothing.
    pub fn layer_configured(&mut self, width: u32, height: u32) -> (show: bool)
        requires
            old(self).wf(),
        ensures
            final(self).wf(),
            show == (old(self).action == Action::Init && width > 0 && height > 0),
            !show ==> *final(self) == *old(self),
            show ==> {
                let n = if old(self).wlctx.layer_ready < old(self).wlctx.foam_outputs.len() {
                    old(self).wlctx.layer_ready + 1
                } else {
                    old(self).wlctx.layer_ready as int
                };
                &&& n == old(self).wlctx.foam_outputs.len() ==> final(self).action == Action::WaitPointerPress
                    && final(self).wlctx.layer_ready == 0
                    && final(self).wlctx.current_freeze == old(self).wlctx.config.freeze
                &&& n != old(self).wlctx.foam_outputs.len() ==> final(self).action == Action::Init
                    && final(self).wlctx.layer_ready == n
                    && final(self).wlctx.current_freeze == old(self).wlctx.current_freeze
                &&& final(self).wlctx.foam_outputs == old(self).wlctx.foam_outputs
                &&& final(self).wlctx.global_rect == old(self).wlctx.global_rect
            },
    {
        if self.action != Action::Init || width == 0 || height == 0 {
            return false;
        }
        if self.wlctx.layer_ready < self.wlctx.foam_outputs.len() {
            self.wlctx.layer_ready = self.wlctx.layer_ready + 1;
        }
        if self.wlctx.layer_ready == self.wlctx.foam_outputs.len() {
            self.wlctx.current_freeze = self.wlctx.config.freeze;
            self.action = Action::WaitPointerPress;
            self.wlctx.layer_ready = 0;
        }
        true
    }

    /// The compositor is ready for a new frame: while drawing or editing, the
    /// outputs whose selection part changed are handed out for redrawing (see
    /// `WaylandCtx::update_select_region`); otherwise none.
    pub fn frame_done(&mut self) -> (ids: Vec<usize>)
        requires
            old(self).wf(),
        ensures
            final(self).wf(),
            final(self).action == old(self).action,
            !(old(self).action is OnDraw || old(self).action is OnEdit) ==> ids@.len() == 0
                && *final(self) == *old(self),
            (old(self).action is OnDraw || old(self).action is OnEdit) ==> {
                &&& final(self).wlctx.foam_outputs.len() == old(self).wlctx.foam_outputs.len()
                &&& forall|k: int| 0 <= k < ids.len() ==> ids@[k] < old(self).wlctx.foam_outputs.len()
                    && (#[trigger] old(self).wlctx.foam_outputs@[ids@[k] as int]).need_redraw
                    && old(self).wlctx.foam_outputs@[ids@[k] as int].subrect is Some
                &&& forall|i: int| 0 <= i < old(self).wlctx.foam_outputs.len() ==> {
                    let o = old(self).wlctx.foam_outputs@[i];
                    &&& (o.need_redraw && o.subrect is Some) ==> ids@.contains(i as usize)
                    &&& (#[trigger] final(self).wlctx.foam_outputs@[i]).subrect == o.subrect
                    &&& final(self).wlctx.foam_outputs@[i].need_redraw == (o.need_redraw && o.subrect is None)
                }
            },
    {
        match self.action {
            Action::OnDraw | Action::OnEdit(_) => self.wlctx.update_select_region(),
            _ => Vec::new(),
        }
    }

    /// A capture failed: the run ends.
    pub fn capture_failed(&mut self)
        ensures
            final(self).action == Action::Exit,
            final(self).wlctx == old(self).wlctx,
    {
        self.action = Action::Exit;
    }

    /// The notification that the image was saved, naming where; none when notifications are off.
    pub fn send_save_info(&self) -> (r: Option<Notification>)
        ensures
            !self.wlctx.config.allow_notify ==> r is None,
            self.wlctx.config.allow_notify ==> (r matches Some(n)
                && n.level == NotificationLevel::Info
                && n.summary@ == "image_saved"@
                && n.body@ == "Image saved in "@ + self.wlctx.config.output_path@
                && n.icon@ == self.wlctx.config.output_path@),
    {
        if !self.wlctx.config.allow_notify {
            return None;
        }
        proof {
            reveal_strlit("image_saved");
            reveal_strlit("Image saved in ");
        }
        let body = String::from_str("Image saved in ").concat(self.wlctx.config.output_path.as_str());
        Some(Notification {
            level: NotificationLevel::Info,
            summary: String::from_str("image_saved"),
            body,
            icon: self.wlctx.config.output_path.clone(),
        })
    }

    /// An error notification with the given body; none when notifications are off.
    pub fn send_error(&self, body: &str) -> (r: Option<Notification>)
        ensures
            !self.wlctx.config.allow_notify ==> r is None,
            self.wlctx.config.allow_notify ==> (r matches Some(n)
                && n.level == NotificationLevel::Error
                && n.summary@ == "foamshot error"@
                && n.body@ == body@
                && n.icon@ == "dialog-error"@),
    {
        if !self.wlctx.config.allow_notify {
            return None;
        }
        proof {
            reveal_strlit("foamshot error");
            reveal_strlit("dialog-error");
        }
        Some(Notification {
            level: NotificationLevel::Error,
            summary: String::from_str("foamshot error"),
            body: String::from_str(body),
            icon: String::from_str("dialog-error"),
        })
    }

    /// A warning notification with the given body; none when notifications are off.
    pub fn send_warn(&self, body: &str) -> (r: Option<Notification>)
        ensures
            !self.wlctx.config.allow_notify ==> r is None,
            self.wlctx.config.allow_notify ==> (r matches Some(n)
                && n.level == NotificationLevel::Warn
                && n.summary@ == "foamshot warn"@
                && n.body@ == body@
                && n.icon@ == "dialog-warning"@),
    {
        if !self.wlctx.config.allow_notify {
            return None;
        }
        proof {
            reveal_strlit("foamshot warn");
            reveal_strlit("dialog-warning");
        }
        Some(Notification {
            level: NotificationLevel::Warn,
            summary: String::from_str("foamshot warn"),
            body: String::from_str(body),
            icon: String::from_str("dialog-warning"),
        })
    }
}

} // verus!
