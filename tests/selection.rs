use foamshot::action::{Action, CursorShape, EditAction};
use foamshot::monitors::{FoamMonitors, Scale};
use foamshot::select_rect::{SelectRect, THRESHOLD};

fn corners(r: &SelectRect) -> (i32, i32, i32, i32) {
    (r.sx, r.sy, r.ex, r.ey)
}

fn monitor(id: usize, x: i32, y: i32, w: i32, h: i32) -> FoamMonitors {
    let mut m = FoamMonitors::new(id);
    m.update_mode(w, h);
    m.update_logical_size(w, h);
    m.update_logical_position(x, y);
    m
}

#[test]
fn from_drag_is_symmetric() {
    let a = SelectRect::from_drag((300, 50), (100, 400));
    let b = SelectRect::from_drag((100, 400), (300, 50));
    assert_eq!(corners(&a), (100, 50, 300, 400));
    assert_eq!(corners(&a), corners(&b));
}

#[test]
fn hit_region_corners_edges_and_interior() {
    let r = SelectRect::new(100, 100, 300, 300);
    assert_eq!(r.hit_region(100, 100, THRESHOLD), EditAction::TopLeft);
    assert_eq!(r.hit_region(310, 90, THRESHOLD), EditAction::TopRight);
    assert_eq!(r.hit_region(95, 305, THRESHOLD), EditAction::BottomLeft);
    assert_eq!(r.hit_region(300, 300, THRESHOLD), EditAction::BottomRight);
    assert_eq!(r.hit_region(110, 200, THRESHOLD), EditAction::Left);
    assert_eq!(r.hit_region(290, 200, THRESHOLD), EditAction::Right);
    assert_eq!(r.hit_region(200, 90, THRESHOLD), EditAction::Top);
    assert_eq!(r.hit_region(200, 315, THRESHOLD), EditAction::Bottom);
    assert_eq!(r.hit_region(200, 200, THRESHOLD), EditAction::Move);
    assert_eq!(r.hit_region(500, 500, THRESHOLD), EditAction::Idle);
    // inside, but within the left strip: not a move
    assert_eq!(r.hit_region(115, 200, THRESHOLD), EditAction::Left);
    assert_eq!(r.hit_region(116, 200, THRESHOLD), EditAction::Move);
}

#[test]
fn edit_with_stationary_pointer_is_stable() {
    for act in [EditAction::Left, EditAction::Right, EditAction::Top, EditAction::BottomRight, EditAction::TopLeft] {
        let mut r = SelectRect::new(100, 100, 300, 300);
        let a1 = r.edit((0, 0), (350, 50), Action::OnEdit(act));
        let once = corners(&r);
        let a2 = r.edit((0, 0), (350, 50), a1);
        assert_eq!(corners(&r), once);
        assert_eq!(a2, a1);
    }
}

#[test]
fn left_edge_flip_matches_right_edge_drag() {
    let mut a = SelectRect::new(100, 100, 300, 300);
    let ra = a.edit((100, 150), (350, 150), Action::OnEdit(EditAction::Left));
    let mut b = SelectRect::new(300, 100, 300, 300);
    let rb = b.edit((300, 150), (350, 150), Action::OnEdit(EditAction::Right));
    assert_eq!(corners(&a), corners(&b));
    assert_eq!(corners(&a), (300, 100, 350, 300));
    assert_eq!(ra, Action::OnEdit(EditAction::Right));
    assert_eq!(rb, Action::OnEdit(EditAction::Right));
}

#[test]
fn corner_flip_on_both_axes() {
    let mut r = SelectRect::new(100, 100, 300, 300);
    let next = r.edit((100, 100), (400, 350), Action::OnEdit(EditAction::TopLeft));
    assert_eq!(corners(&r), (300, 300, 400, 350));
    assert_eq!(next, Action::OnEdit(EditAction::BottomRight));
}

#[test]
fn edit_outside_edit_mode_keeps_rectangle() {
    let mut r = SelectRect::new(1, 2, 3, 4);
    assert_eq!(r.edit((0, 0), (9, 9), Action::OnDraw), Action::OnEdit(EditAction::Idle));
    assert_eq!(corners(&r), (1, 2, 3, 4));
}

#[test]
fn move_that_would_overflow_is_ignored() {
    let mut r = SelectRect::new(0, 0, 10, 10);
    r.edit((0, 0), (i32::MAX, 0), Action::OnEdit(EditAction::Move));
    assert_eq!(corners(&r), (0, 0, 10, 10));
}

#[test]
fn cursor_shapes() {
    assert_eq!(EditAction::Idle.to_cursor_shape(), CursorShape::Crosshair);
    assert_eq!(EditAction::Top.to_cursor_shape(), CursorShape::NsResize);
    assert_eq!(EditAction::TopRight.to_cursor_shape(), CursorShape::NeswResize);
    assert_eq!(EditAction::BottomRight.to_cursor_shape(), CursorShape::NwseResize);
    assert_eq!(EditAction::Move.to_cursor_shape(), CursorShape::Move);
}

#[test]
fn projection_stays_inside_monitor() {
    let m = monitor(0, 100, 100, 50, 40);
    let r = SelectRect::new(0, 0, 1000, 1000);
    let sr = m.project_onto(&r).unwrap();
    assert_eq!((sr.relative_min_x, sr.relative_min_y, sr.width, sr.height), (0, 0, 50, 40));
    assert_eq!(m.project_onto(&SelectRect::new(0, 0, 100, 100)), None);
    assert_eq!(m.project_onto(&SelectRect::new(120, 120, 120, 130)), None);
}

#[test]
fn integer_scale_projection() {
    let mut m = monitor(2, 0, 0, 960, 540);
    m.update_mode(1920, 1080);
    m.scale.update_normal(2);
    let sr = m.project_onto(&SelectRect::new(10, 20, 110, 70)).unwrap();
    assert_eq!((sr.monitor_id, sr.relative_min_x, sr.relative_min_y, sr.width, sr.height), (2, 20, 40, 200, 100));
}

#[test]
fn scale_conversion() {
    let mut s = Scale::new_fractional();
    assert_eq!(s.calculate_pos(100, 10_000), 100);
    assert!(s.update_fraction(180));
    assert!(!s.update_fraction(180));
    assert_eq!(s.calculate_pos(100, 10_000), 150);
    assert_eq!(s.calculate_pos(100, 120), 120);
    let mut n = Scale::new_normal();
    assert!(!n.is_fractional());
    assert!(!n.update_fraction(180));
    assert!(n.update_normal(3));
    assert_eq!(n.calculate_pos(7, 100), 21);
}

#[test]
fn border_sides_skip_monitor_edges() {
    let mut m = monitor(0, 0, 0, 100, 100);
    assert_eq!(m.border_sides(), None);
    m.new_subrect(0, 10, 50, 90);
    let b = m.border_sides().unwrap();
    assert_eq!((b.left, b.top, b.right, b.bottom), (false, true, true, false));
    m.max_rect();
    let b = m.border_sides().unwrap();
    assert_eq!((b.left, b.top, b.right, b.bottom), (false, false, false, false));
    m.clean_rect();
    assert_eq!(m.subrect, None);
}

#[test]
fn convert_between_surfaces() {
    let a = monitor(0, 0, 0, 1920, 1080);
    let b = monitor(1, 1920, 0, 1920, 1080);
    assert_eq!(FoamMonitors::convert_pos_to_surface(&b, &a, 10, 20), (1930, 20));
    assert_eq!(FoamMonitors::convert_pos_to_surface(&a, &b, 10, 20), (-1910, 20));
}

#[test]
fn monitor_geometry_updates() {
    let mut m = FoamMonitors::new(4);
    assert!(!m.is_complete());
    m.update_mode(-5, 10);
    assert_eq!((m.width, m.height), (0, 0));
    m.update_mode(800, 600);
    m.update_logical_size(800, 600);
    assert!(m.is_complete());
    m.update_logical_position(i32::MAX, 0);
    assert_eq!((m.global_x, m.global_y), (0, 0));
    let h = foamshot::monitors::Monitor {
        name: String::from("DP-1"),
        x: 10,
        y: 20,
        width: 800,
        height: 600,
        scale: 1,
    };
    assert!(h.is_complete());
    assert_eq!((h.get_right(), h.get_bottom()), (810, 620));
}

#[test]
fn projected_areas_add_up_across_scales() {
    // A: logical (0,0) 100x100 at scale 1; B: logical (100,0) 100x100 at scale 2 (200x200 pixels)
    let a = monitor(0, 0, 0, 100, 100);
    let mut b = monitor(1, 100, 0, 100, 100);
    b.update_mode(200, 200);
    b.scale.update_normal(2);
    let sel = SelectRect::new(50, 10, 160, 40);
    let ra = a.project_onto(&sel).unwrap();
    let rb = b.project_onto(&sel).unwrap();
    assert_eq!((ra.relative_min_x, ra.relative_min_y, ra.width, ra.height), (50, 10, 50, 30));
    assert_eq!((rb.relative_min_x, rb.relative_min_y, rb.width, rb.height), (0, 20, 120, 60));
    let area = ra.width * ra.height + (rb.width / 2) * (rb.height / 2);
    assert_eq!(area, (160 - 50) * (40 - 10));
}

#[test]
fn placement_stays_within_canvas() {
    let mut m = monitor(0, 0, 0, 100, 50);
    m.new_subrect(90, 40, 10, 10);
    let info = foamshot::save_helper::CaptureInfo { min_x: 90, min_y: 40, total_width: 10, total_height: 10, monitor_ids: vec![0] };
    let p = foamshot::save_helper::process_single_output(&m, &info).unwrap();
    assert_eq!((p.src_offset, p.stride, p.dest_x, p.dest_y), (40 * 400 + 90 * 4, 400, 0, 0));
    assert_eq!(p.src_offset + 9 * p.stride + 10 * 4, 100 * 50 * 4);
}
