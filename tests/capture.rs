use foamshot::action::{Action, IsFreeze};
use foamshot::config::{FoamConfig, ImageType};
use foamshot::foamcore::{FoamShot, KEY_ESC, KEY_F, KEY_S};
use foamshot::notify::NotificationLevel;
use foamshot::wayland_ctx::hs_insert;
use foamshot::zwlr_screencopy_mode::{CaptureError, ZwlrScreencopyMode};
use std::collections::HashMap;

fn config(notify: bool) -> FoamConfig {
    FoamConfig {
        output_path: String::from("/home/u/Pictures/shot.png"),
        image_type: ImageType::Png,
        cursor: false,
        auto_copy: true,
        edit: false,
        freeze: true,
        full_screen: false,
        allow_notify: notify,
    }
}

fn shot_with(sizes: &[(i32, i32)]) -> FoamShot {
    let mut shot = FoamShot::new(config(false));
    for &(w, h) in sizes {
        let id = shot.wlctx.add_output();
        shot.wlctx.foam_outputs[id].update_mode(w, h);
        shot.wlctx.foam_outputs[id].update_logical_size(w, h);
    }
    shot
}

#[test]
fn capture_barrier_resets_and_stores() {
    let mut shot = shot_with(&[(4, 2), (3, 3)]);
    assert_eq!(shot.wlctx.request_screencopy(), vec![0, 1]);
    // a second request while frames are outstanding asks for nothing
    assert_eq!(shot.wlctx.request_screencopy(), Vec::<usize>::new());
    assert!(!shot.wlctx.scm.all_ready());
    assert!(shot.wlctx.scm.frame_ready(1));
    assert!(!shot.wlctx.scm.frame_ready(1));
    assert_eq!(
        shot.wlctx.storage_copy_canvas(vec![vec![0; 32], vec![0; 36]]),
        Err(CaptureError::NotReady)
    );
    assert!(shot.wlctx.scm.frame_ready(0));
    assert!(shot.wlctx.scm.all_ready());
    assert_eq!(shot.wlctx.storage_copy_canvas(vec![vec![0; 32]]), Err(CaptureError::WrongCount));
    assert_eq!(
        shot.wlctx.storage_copy_canvas(vec![vec![0; 32], vec![0; 35]]),
        Err(CaptureError::WrongSize(1))
    );
    assert_eq!(shot.wlctx.scm.copy_ready, 2);
    assert_eq!(shot.wlctx.storage_copy_canvas(vec![vec![1; 32], vec![2; 36]]), Ok(()));
    assert_eq!(shot.wlctx.scm.copy_ready, 0);
    assert_eq!(shot.wlctx.scm.base_canvas[0].len(), 4 * 2 * 4);
    assert_eq!(shot.wlctx.scm.base_canvas[1].len(), 3 * 3 * 4);
    assert_eq!(shot.wlctx.scm.base_canvas[1][0], 2);
    // the next round can be requested again
    assert_eq!(shot.wlctx.request_screencopy(), vec![0, 1]);
}

#[test]
fn screencopy_session_bounds() {
    let mut s = ZwlrScreencopyMode::new(2);
    assert!(!s.request_copy_one(2));
    assert!(s.request_copy_one(0));
    assert!(!s.request_copy_one(0));
    assert!(!s.frame_ready(1));
    assert!(s.frame_ready(0));
    assert_eq!(s.copy_ready, 1);
    assert_eq!(s.finish_cycle(vec![], &vec![0, 0]), Err(CaptureError::NotReady));
}

#[test]
fn keys_change_state() {
    let mut shot = shot_with(&[(10, 10)]);
    shot.action = Action::WaitPointerPress;
    shot.key_pressed(KEY_S);
    assert_eq!(shot.action, Action::WaitPointerPress);
    shot.action = Action::OnDraw;
    shot.key_pressed(KEY_S);
    assert_eq!(shot.action, Action::Output);

    shot.action = Action::WaitPointerPress;
    shot.key_pressed(KEY_F);
    assert!(!shot.wlctx.current_freeze);
    assert_eq!(shot.action, Action::ToggleFreeze(IsFreeze::UnFreeze));
    shot.finish_toggle();
    assert_eq!(shot.action, Action::WaitPointerPress);
    shot.key_pressed(KEY_F);
    assert_eq!(shot.action, Action::ToggleFreeze(IsFreeze::NewFrameFreeze));

    shot.action = Action::OnEdit(foamshot::action::EditAction::Idle);
    shot.key_pressed(KEY_ESC);
    assert_eq!(shot.action, Action::ToggleFreeze(IsFreeze::OldFrameFreeze));
    shot.finish_toggle();
    assert_eq!(shot.action, Action::WaitPointerPress);
    assert!(shot.wlctx.global_rect.is_none());
    shot.key_pressed(KEY_ESC);
    assert_eq!(shot.action, Action::Exit);
}

#[test]
fn capture_failure_exits() {
    let mut shot = shot_with(&[(10, 10)]);
    shot.capture_failed();
    assert_eq!(shot.action, Action::Exit);
}

#[test]
fn notifications() {
    assert_eq!(NotificationLevel::Info.to_urgency(), "low");
    assert_eq!(NotificationLevel::Warn.to_urgency(), "normal");
    assert_eq!(NotificationLevel::Error.to_urgency(), "critical");
    let quiet = FoamShot::new(config(false));
    assert!(quiet.send_save_info().is_none());
    assert!(quiet.send_error("boom").is_none());
    let shot = FoamShot::new(config(true));
    let n = shot.send_save_info().unwrap();
    assert_eq!(n.level, NotificationLevel::Info);
    assert_eq!(n.summary, "image_saved");
    assert_eq!(n.body, "Image saved in /home/u/Pictures/shot.png");
    assert_eq!(n.icon, "/home/u/Pictures/shot.png");
    let e = shot.send_error("no screencopy").unwrap();
    assert_eq!((e.level, e.summary.as_str(), e.body.as_str(), e.icon.as_str()),
        (NotificationLevel::Error, "foamshot error", "no screencopy", "dialog-error"));
    let w = shot.send_warn("no cursor shape").unwrap();
    assert_eq!((w.level, w.summary.as_str(), w.icon.as_str()),
        (NotificationLevel::Warn, "foamshot warn", "dialog-warning"));
}

#[test]
fn hs_insert_makes_and_fills_map() {
    let mut m: Option<HashMap<usize, i32>> = None;
    hs_insert(&mut m, 3, 30);
    hs_insert(&mut m, 4, 40);
    hs_insert(&mut m, 3, 33);
    let m = m.unwrap();
    assert_eq!(m.len(), 2);
    assert_eq!(m[&3], 33);
    assert_eq!(m[&4], 40);
}

#[test]
fn layers_configure_only_while_starting() {
    let mut shot = shot_with(&[(10, 10), (20, 20)]);
    shot.wlctx.current_freeze = false;
    assert!(!shot.layer_configured(0, 10));
    assert_eq!(shot.wlctx.layer_ready, 0);
    assert!(shot.layer_configured(10, 10));
    assert_eq!(shot.action, Action::Init);
    assert!(shot.layer_configured(20, 20));
    assert_eq!(shot.action, Action::WaitPointerPress);
    assert_eq!(shot.wlctx.layer_ready, 0);
    assert!(shot.wlctx.current_freeze);
    assert!(!shot.layer_configured(20, 20));
}

#[test]
fn frames_redraw_changed_outputs_while_drawing() {
    let mut shot = shot_with(&[(100, 100), (100, 100)]);
    shot.wlctx.foam_outputs[1].update_logical_position(100, 0);
    assert!(shot.layer_configured(1, 1));
    assert!(shot.layer_configured(1, 1));
    assert!(shot.pointer_enter(0, 10, 10, 1));
    shot.pointer_button(true);
    shot.pointer_motion(50, 50);
    assert!(shot.wlctx.foam_outputs[0].need_redraw);
    assert!(!shot.wlctx.foam_outputs[1].need_redraw);
    assert_eq!(shot.frame_done(), vec![0]);
    assert!(!shot.wlctx.foam_outputs[0].need_redraw);
    assert_eq!(shot.frame_done(), Vec::<usize>::new());
    shot.pointer_motion(150, 50);
    assert_eq!(shot.frame_done(), vec![0, 1]);
    shot.action = Action::Output;
    shot.wlctx.foam_outputs[0].need_redraw = true;
    assert_eq!(shot.frame_done(), Vec::<usize>::new());
}
