use orbit_controller::controller::{Camera, CameraController, Frame, Key};
use orbit_controller::fx::SCALE;
use orbit_controller::vec::{Vec2, Vec3};

fn v3(x: i64, y: i64, z: i64) -> Vec3 {
    Vec3 { x, y, z }
}

/// A camera on the +z axis looking back at the origin, axes aligned
/// with the world.
fn camera_at(position: Vec3) -> Camera {
    Camera {
        position,
        rotation: Frame {
            right: v3(SCALE, 0, 0),
            up: v3(0, SCALE, 0),
            forward: v3(0, 0, -SCALE),
        },
    }
}

const DT_60FPS: i64 = 16777;

#[test]
fn new_starts_cleared() {
    let c = CameraController::new(SCALE, SCALE);
    assert_eq!(c.center, v3(0, 0, 0));
    assert!(c.up.is_none());
    assert_eq!(c.amount, v3(0, 0, 0));
    assert_eq!(c.shift, Vec2 { x: 0, y: 0 });
    assert_eq!(c.rotation, v3(0, 0, 0));
    assert_eq!(c.scroll, 0);
    assert_eq!(c.speed, SCALE);
    assert_eq!(c.sensitivity, SCALE);
    assert!(!c.left_mouse_pressed && !c.right_mouse_pressed);
    assert!(!c.alt_pressed && !c.user_inptut);
}

#[test]
fn press_release_cancels() {
    let mut c = CameraController::new(SCALE, SCALE);
    assert!(c.process_keyboard(Key::KeyW, true));
    assert_eq!(c.amount.z, SCALE);
    assert!(c.process_keyboard(Key::KeyW, false));
    assert_eq!(c.amount, v3(0, 0, 0));
}

#[test]
fn opposing_keys_cancel() {
    let mut c = CameraController::new(SCALE, SCALE);
    assert!(c.process_keyboard(Key::KeyW, true));
    assert!(c.process_keyboard(Key::KeyS, true));
    assert_eq!(c.amount.z, 0);
    // Releasing one restores the other's effect.
    assert!(c.process_keyboard(Key::KeyS, false));
    assert_eq!(c.amount.z, SCALE);
}

#[test]
fn key_axis_mapping() {
    let mut c = CameraController::new(SCALE, SCALE);
    c.process_keyboard(Key::ArrowUp, true);
    assert_eq!(c.amount, v3(0, 0, SCALE));
    c.process_keyboard(Key::ArrowDown, true);
    assert_eq!(c.amount, v3(0, 0, 0));
    c.process_keyboard(Key::KeyD, true);
    assert_eq!(c.amount, v3(SCALE, 0, 0));
    c.process_keyboard(Key::ArrowLeft, true);
    assert_eq!(c.amount, v3(0, 0, 0));
    c.process_keyboard(Key::Space, true);
    assert_eq!(c.amount, v3(0, SCALE, 0));
    c.process_keyboard(Key::ShiftLeft, true);
    assert_eq!(c.amount, v3(0, 0, 0));
    c.process_keyboard(Key::ArrowRight, true);
    c.process_keyboard(Key::KeyA, true);
    assert_eq!(c.amount, v3(0, 0, 0));
}

#[test]
fn reserved_keys_are_inert() {
    let mut c = CameraController::new(SCALE, SCALE);
    assert!(!c.process_keyboard(Key::KeyQ, true));
    assert!(!c.process_keyboard(Key::KeyE, true));
    assert_eq!(c.amount, v3(0, 0, 0));
    assert!(!c.user_inptut);
}

#[test]
fn unrecognized_key_clears_flag() {
    let mut c = CameraController::new(SCALE, SCALE);
    c.process_scroll(-SCALE);
    assert!(c.user_inptut);
    assert!(!c.process_keyboard(Key::Other, true));
    assert!(!c.user_inptut);
}

#[test]
fn mouse_left_accumulates_rotation() {
    let mut c = CameraController::new(SCALE, SCALE);
    c.left_mouse_pressed = true;
    c.process_mouse(100, -200);
    assert_eq!(c.rotation, v3(100, -200, 0));
    assert_eq!(c.shift, Vec2 { x: 0, y: 0 });
    assert!(c.user_inptut);
}

#[test]
fn mouse_right_accumulates_pan() {
    let mut c = CameraController::new(SCALE, SCALE);
    c.right_mouse_pressed = true;
    c.process_mouse(100, -200);
    assert_eq!(c.shift, Vec2 { x: -200, y: -100 });
    assert_eq!(c.rotation, v3(0, 0, 0));
    assert!(c.user_inptut);
}

#[test]
fn both_buttons_fire_both_branches() {
    let mut c = CameraController::new(SCALE, SCALE);
    c.left_mouse_pressed = true;
    c.right_mouse_pressed = true;
    c.process_mouse(10, 20);
    assert_eq!(c.rotation, v3(10, 20, 0));
    assert_eq!(c.shift, Vec2 { x: 20, y: -10 });
}

#[test]
fn no_buttons_leave_state_alone() {
    let mut c = CameraController::new(SCALE, SCALE);
    c.process_mouse(10, 20);
    assert_eq!(c.rotation, v3(0, 0, 0));
    assert_eq!(c.shift, Vec2 { x: 0, y: 0 });
    assert!(!c.user_inptut);
}

#[test]
fn scroll_accumulates_negated() {
    let mut c = CameraController::new(SCALE, SCALE);
    c.process_scroll(-SCALE);
    assert_eq!(c.scroll, SCALE);
    c.process_scroll(SCALE / 2);
    assert_eq!(c.scroll, SCALE / 2);
}

#[test]
fn user_input_flag_cycle() {
    let mut c = CameraController::new(SCALE, SCALE);
    let mut cam = camera_at(v3(0, 0, SCALE));
    c.process_scroll(-SCALE);
    assert!(c.user_inptut);
    c.update_camera(&mut cam, DT_60FPS);
    assert!(!c.user_inptut);
}

#[test]
fn roll_stays_zero() {
    let mut c = CameraController::new(SCALE, SCALE);
    let mut cam = camera_at(v3(0, 0, 4 * SCALE));
    c.left_mouse_pressed = true;
    c.process_mouse(3000, 1500);
    for _ in 0..5 {
        c.update_camera(&mut cam, DT_60FPS);
        assert_eq!(c.rotation.z, 0);
    }
}

#[test]
fn decay_reaches_exact_zero() {
    let mut c = CameraController::new(SCALE, SCALE);
    let mut cam = camera_at(v3(0, 0, 10 * SCALE));
    c.process_scroll(-5 * SCALE);
    c.left_mouse_pressed = true;
    c.right_mouse_pressed = true;
    c.process_mouse(4 * SCALE, -3 * SCALE);
    // At this frame length the factor is 846384/2^20 = 0.807 per frame;
    // 5 whole units reach the snap threshold within 51 frames.
    for _ in 0..60 {
        c.update_camera(&mut cam, DT_60FPS);
    }
    assert_eq!(c.scroll, 0);
    assert_eq!(c.shift, Vec2 { x: 0, y: 0 });
    assert_eq!(c.rotation, v3(0, 0, 0));
}

#[test]
fn dolly_exponential_law() {
    let mut c = CameraController::new(SCALE, SCALE);
    let mut cam = camera_at(v3(0, 0, SCALE));
    c.process_scroll(-SCALE);
    c.update_camera(&mut cam, DT_60FPS);
    // distance * exp(scroll * dt * 10 * speed) with scroll = 1, dt =
    // 16777/2^20 s, speed = 1: exp(0.16001) = 1.17351 = raw 1230512.
    assert_eq!(c.center, v3(0, 0, 0));
    assert_eq!(cam.position, v3(0, 0, 1230512));
}

#[test]
fn pole_guard_keeps_direction() {
    let mut c = CameraController::new(SCALE, SCALE);
    // About 0.05 rad from the up axis: inside the 0.1 rad guard.
    let start = v3(52429, SCALE, 0);
    let mut cam = camera_at(start);
    c.left_mouse_pressed = true;
    c.process_mouse(1000, 0);
    assert!(c.rotation.x != 0);
    c.update_camera(&mut cam, DT_60FPS);
    assert_eq!(cam.position, start);
}

#[test]
fn pan_distance_scaling() {
    let mut near = CameraController::new(SCALE, SCALE);
    let mut cam_near = camera_at(v3(0, 0, 10 * SCALE));
    near.right_mouse_pressed = true;
    near.process_mouse(-SCALE, 0);
    near.update_camera(&mut cam_near, SCALE);
    let mut far = CameraController::new(SCALE, SCALE);
    let mut cam_far = camera_at(v3(0, 0, 20 * SCALE));
    far.right_mouse_pressed = true;
    far.process_mouse(-SCALE, 0);
    far.update_camera(&mut cam_far, SCALE);
    // Twice the distance, twice the pan offset.
    assert_eq!(near.center, v3(1048580, 0, 0));
    assert_eq!(far.center, v3(2 * 1048580, 0, 0));
}

#[test]
fn resync_is_idempotent() {
    let mut c = CameraController::new(SCALE, SCALE);
    c.center = v3(5 * SCALE, 7 * SCALE, 11 * SCALE);
    c.up = Some(v3(SCALE, SCALE, 0));
    let cam = Camera {
        position: v3(SCALE, 2 * SCALE, 3 * SCALE),
        rotation: Frame {
            right: v3(SCALE, 0, 0),
            up: v3(0, SCALE, 0),
            forward: v3(0, 0, SCALE),
        },
    };
    c.reset_to_camera(cam);
    let center_once = c.center;
    let up_once = c.up;
    assert_eq!(center_once, v3(SCALE, 2 * SCALE, 11 * SCALE));
    assert_eq!(up_once, Some(v3(0, SCALE, 0)));
    c.reset_to_camera(cam);
    assert_eq!(c.center, center_once);
    assert_eq!(c.up, up_once);
}

#[test]
fn new_saturates_tuning() {
    let c = CameraController::new(i64::MAX, i64::MIN);
    assert_eq!(c.speed, orbit_controller::fx::CAP);
    assert_eq!(c.sensitivity, -orbit_controller::fx::CAP);
}

#[test]
fn update_preserves_amount_and_tuning() {
    let mut c = CameraController::new(3 * SCALE, 2 * SCALE);
    let mut cam = camera_at(v3(0, 0, 4 * SCALE));
    c.process_keyboard(Key::KeyW, true);
    c.update_camera(&mut cam, DT_60FPS);
    assert_eq!(c.amount, v3(0, 0, SCALE));
    assert_eq!(c.speed, 3 * SCALE);
    assert_eq!(c.sensitivity, 2 * SCALE);
}

#[test]
fn up_override_changes_guard_axis() {
    // Start 0.05 rad from world up. With the override the pole guard
    // fires and the camera stays put; without it the guard axis is the
    // camera's own (here forward-pointing) up, and the yaw goes through.
    let start = v3(52429, SCALE, 0);
    let mut guarded = CameraController::new(SCALE, SCALE);
    guarded.up = Some(v3(0, SCALE, 0));
    let mut cam_a = Camera {
        position: start,
        rotation: Frame {
            right: v3(SCALE, 0, 0),
            up: v3(0, 0, SCALE),
            forward: v3(0, -SCALE, 0),
        },
    };
    guarded.left_mouse_pressed = true;
    guarded.process_mouse(1000, 0);
    guarded.update_camera(&mut cam_a, DT_60FPS);
    assert_eq!(cam_a.position, start);

    let mut free = CameraController::new(SCALE, SCALE);
    let mut cam_b = Camera {
        position: start,
        rotation: Frame {
            right: v3(SCALE, 0, 0),
            up: v3(0, 0, SCALE),
            forward: v3(0, -SCALE, 0),
        },
    };
    free.left_mouse_pressed = true;
    free.process_mouse(1000, 0);
    free.update_camera(&mut cam_b, DT_60FPS);
    assert_eq!(cam_b.position, v3(52414, SCALE, 0));
}
