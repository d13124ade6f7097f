use foamshot::action::{Action, EditAction};
use foamshot::config::{FoamConfig, ImageType};
use foamshot::foamcore::{FoamShot, KEY_A};
use foamshot::save_helper::{calculate_capture_info, process_single_output};
use foamshot::select_rect::{Point, SelectRect, SubRect};

fn config(edit: bool) -> FoamConfig {
    FoamConfig {
        output_path: String::from("/tmp/shot.png"),
        image_type: ImageType::Png,
        cursor: false,
        auto_copy: false,
        edit,
        freeze: true,
        full_screen: false,
        allow_notify: false,
    }
}

/// Adds an output at logical `(x, y)` of logical size `lw` by `lh` and pixel size `pw` by `ph`.
fn add_monitor(shot: &mut FoamShot, x: i32, y: i32, lw: i32, lh: i32, pw: i32, ph: i32) -> usize {
    let id = shot.wlctx.add_output();
    let m = &mut shot.wlctx.foam_outputs[id];
    m.update_mode(pw, ph);
    m.update_logical_size(lw, lh);
    m.update_logical_position(x, y);
    id
}

fn two_monitors() -> FoamShot {
    let mut shot = FoamShot::new(config(false));
    add_monitor(&mut shot, 0, 0, 1920, 1080, 1920, 1080);
    add_monitor(&mut shot, 1920, 0, 1920, 1080, 1920, 1080);
    assert!(shot.layer_configured(1920, 1080));
    assert!(shot.layer_configured(1920, 1080));
    assert_eq!(shot.action, Action::WaitPointerPress);
    shot
}

fn corners(r: &SelectRect) -> (i32, i32, i32, i32) {
    (r.sx, r.sy, r.ex, r.ey)
}

#[test]
fn single_monitor_rectangle() {
    let mut shot = FoamShot::new(config(false));
    add_monitor(&mut shot, 0, 0, 1920, 1080, 1920, 1080);
    assert!(shot.layer_configured(1920, 1080));
    assert_eq!(shot.action, Action::WaitPointerPress);
    assert!(shot.pointer_enter(0, 100, 200, 7));
    shot.pointer_button(true);
    assert_eq!(shot.action, Action::OnDraw);
    shot.pointer_motion(300, 500);
    shot.pointer_button(false);
    assert_eq!(shot.action, Action::Output);
    let rect = shot.wlctx.global_rect.as_ref().unwrap();
    assert_eq!(corners(rect), (100, 200, 300, 500));
    assert_eq!(shot.wlctx.foam_outputs[0].subrect, Some(SubRect::new(0, 100, 200, 200, 300)));
    let info = calculate_capture_info(&shot.wlctx.foam_outputs).unwrap();
    assert_eq!((info.total_width, info.total_height), (200, 300));
    assert_eq!(info.monitor_ids, vec![0]);
}

#[test]
fn cross_monitor_rectangle() {
    let mut shot = two_monitors();
    assert!(shot.pointer_enter(0, 1800, 400, 1));
    shot.pointer_button(true);
    shot.pointer_motion(2100, 600);
    shot.pointer_button(false);
    assert_eq!(corners(shot.wlctx.global_rect.as_ref().unwrap()), (1800, 400, 2100, 600));
    assert_eq!(shot.wlctx.foam_outputs[0].subrect, Some(SubRect::new(0, 1800, 400, 120, 200)));
    assert_eq!(shot.wlctx.foam_outputs[1].subrect, Some(SubRect::new(1, 0, 400, 180, 200)));
    let info = calculate_capture_info(&shot.wlctx.foam_outputs).unwrap();
    assert_eq!((info.min_x, info.min_y), (1800, 400));
    assert_eq!((info.total_width, info.total_height), (300, 200));
    assert_eq!(info.monitor_ids, vec![0, 1]);
    let pa = process_single_output(&shot.wlctx.foam_outputs[0], &info).unwrap();
    let pb = process_single_output(&shot.wlctx.foam_outputs[1], &info).unwrap();
    assert_eq!((pa.dest_x, pa.dest_y, pa.width, pa.height), (0, 0, 120, 200));
    assert_eq!((pb.dest_x, pb.dest_y, pb.width, pb.height), (120, 0, 180, 200));
    assert_eq!(pa.src_offset, (400 * 1920 * 4 + 1800 * 4) as u64);
    assert_eq!(pb.src_offset, (400 * 1920 * 4) as u64);
    assert_eq!(pa.stride, 1920 * 4);
}

#[test]
fn fractional_scale_projection() {
    let mut shot = FoamShot::new(config(false));
    add_monitor(&mut shot, 0, 0, 1920, 1080, 2400, 1350);
    let m = &mut shot.wlctx.foam_outputs[0];
    m.scale = foamshot::monitors::Scale::new_fractional();
    assert!(m.scale.update_fraction(150));
    assert!(shot.layer_configured(1920, 1080));
    assert!(shot.pointer_enter(0, 0, 0, 1));
    shot.pointer_button(true);
    shot.pointer_motion(960, 540);
    shot.pointer_button(false);
    assert_eq!(shot.wlctx.foam_outputs[0].subrect, Some(SubRect::new(0, 0, 0, 1200, 675)));
    let info = calculate_capture_info(&shot.wlctx.foam_outputs).unwrap();
    assert_eq!((info.total_width, info.total_height), (1200, 675));
}

#[test]
fn edit_flip_left_past_right() {
    let mut r = SelectRect::new(100, 100, 300, 300);
    let next = r.edit((100, 200), (400, 200), Action::OnEdit(EditAction::Left));
    assert_eq!(corners(&r), (300, 100, 400, 300));
    assert_eq!(next, Action::OnEdit(EditAction::Right));
}

#[test]
fn move_across_monitors() {
    let mut shot = two_monitors();
    assert!(shot.pointer_enter(0, 1900, 500, 1));
    shot.wlctx.global_rect = Some(SelectRect::new(1800, 400, 2000, 600));
    shot.action = Action::OnEdit(EditAction::Idle);
    shot.pointer_button(true);
    assert_eq!(shot.action, Action::OnEdit(EditAction::Move));
    shot.pointer_motion(1950, 530);
    assert_eq!(corners(shot.wlctx.global_rect.as_ref().unwrap()), (1850, 430, 2050, 630));
    assert_eq!(shot.wlctx.foam_outputs[0].subrect, Some(SubRect::new(0, 1850, 430, 70, 200)));
    assert_eq!(shot.wlctx.foam_outputs[1].subrect, Some(SubRect::new(1, 0, 430, 130, 200)));
    // a further motion of the same press is measured from where the move began
    shot.pointer_motion(1960, 540);
    assert_eq!(corners(shot.wlctx.global_rect.as_ref().unwrap()), (1860, 440, 2060, 640));
    shot.pointer_button(false);
    assert_eq!(shot.action, Action::OnEdit(EditAction::Idle));
}

#[test]
fn full_screen_keystroke() {
    let mut shot = two_monitors();
    assert!(shot.pointer_enter(1, 100, 100, 3));
    assert_eq!(shot.wlctx.current_index, Some(1));
    shot.action = Action::OnEdit(EditAction::Idle);
    shot.key_pressed(KEY_A);
    assert_eq!(shot.action, Action::Output);
    assert_eq!(corners(shot.wlctx.global_rect.as_ref().unwrap()), (1920, 0, 3840, 1080));
    assert_eq!(shot.wlctx.foam_outputs[0].subrect, None);
    assert_eq!(shot.wlctx.foam_outputs[1].subrect, Some(SubRect::new(1, 0, 0, 1920, 1080)));
    let info = calculate_capture_info(&shot.wlctx.foam_outputs).unwrap();
    assert_eq!((info.total_width, info.total_height), (1920, 1080));
    assert_eq!(info.monitor_ids, vec![1]);
}

#[test]
fn spurious_enter_is_read_as_global() {
    let mut shot = two_monitors();
    // an enter for output 1 whose point lies outside its surface: read as global
    assert!(shot.pointer_enter(1, 2000, 300, 1));
    assert_eq!(shot.wlctx.current_index, Some(1));
    assert_eq!(shot.wlctx.pointer_helper.g_current_pos, Some(Point { x: 2000, y: 300 }));
    // an unknown output is refused
    assert!(!shot.pointer_enter(5, 0, 0, 2));
}

#[test]
fn zero_area_release_waits_again() {
    let mut shot = two_monitors();
    assert!(shot.pointer_enter(0, 50, 50, 1));
    shot.pointer_button(true);
    shot.pointer_button(false);
    assert_eq!(shot.action, Action::WaitPointerPress);
}

#[test]
fn release_enters_edit_mode_when_configured() {
    let mut shot = FoamShot::new(config(true));
    add_monitor(&mut shot, 0, 0, 800, 600, 800, 600);
    assert!(shot.layer_configured(1920, 1080));
    assert!(shot.pointer_enter(0, 10, 10, 1));
    shot.pointer_button(true);
    shot.pointer_motion(110, 60);
    shot.pointer_button(false);
    assert_eq!(shot.action, Action::OnEdit(EditAction::Idle));
    // pressing on the right edge takes that handle, and dragging it resizes
    shot.pointer_motion(110, 30);
    shot.pointer_button(true);
    assert_eq!(shot.action, Action::OnEdit(EditAction::Right));
    let shape = shot.pointer_motion(115, 30);
    assert_eq!(shape, Some(foamshot::action::CursorShape::EwResize));
    assert_eq!(corners(shot.wlctx.global_rect.as_ref().unwrap()), (10, 10, 115, 60));
}
