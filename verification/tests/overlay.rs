use camera_overlay::camera::CameraTransform;
use camera_overlay::keys::HeldKeys;
use camera_overlay::text::CursorPos;
use camera_overlay::text::CursorReadout;

fn no_keys() -> HeldKeys {
    HeldKeys::none()
}

#[test]
fn arrow_left_moves_x_only() {
    let mut t = CameraTransform::new();
    let keys = HeldKeys { arrow_left: true, ..no_keys() };
    t.apply_held_keys(&keys);
    assert_eq!(t.x, -1);
    assert_eq!(t.y, 0);
}

#[test]
fn arrow_right_moves_x_only() {
    let mut t = CameraTransform::new();
    let keys = HeldKeys { arrow_right: true, ..no_keys() };
    t.apply_held_keys(&keys);
    assert_eq!(t.x, 1);
    assert_eq!(t.y, 0);
}

#[test]
fn arrow_up_moves_y_only() {
    let mut t = CameraTransform::new();
    let keys = HeldKeys { arrow_up: true, ..no_keys() };
    t.apply_held_keys(&keys);
    assert_eq!(t.y, 1);
    assert_eq!(t.x, 0);
}

#[test]
fn arrow_down_moves_y_only() {
    let mut t = CameraTransform::new();
    let keys = HeldKeys { arrow_down: true, ..no_keys() };
    t.apply_held_keys(&keys);
    assert_eq!(t.y, -1);
    assert_eq!(t.x, 0);
}

#[test]
fn opposing_arrows_cancel() {
    let mut t = CameraTransform::new();
    let keys = HeldKeys { arrow_left: true, arrow_right: true, ..no_keys() };
    t.apply_held_keys(&keys);
    assert_eq!(t.x, 0);
    assert_eq!(t.y, 0);
}

#[test]
fn arrows_accumulate_over_ticks() {
    let mut t = CameraTransform::new();
    let keys = HeldKeys { arrow_right: true, arrow_up: true, ..no_keys() };
    for _ in 0..5 {
        t.apply_held_keys(&keys);
    }
    assert_eq!(t.x, 5);
    assert_eq!(t.y, 5);
}

#[test]
fn shift_right_compounds_zoom_in() {
    let mut t = CameraTransform::new();
    let keys = HeldKeys { shift_right: true, ..no_keys() };
    for _ in 0..3 {
        t.apply_held_keys(&keys);
    }
    // Three zoom-in ticks: the scale fraction is 999^3 / 1000^3, i.e. 0.999^3.
    assert_eq!(t.zoom_in_ticks, 3);
    assert_eq!(t.zoom_out_ticks, 0);
}

#[test]
fn shift_left_compounds_zoom_out() {
    let mut t = CameraTransform::new();
    let keys = HeldKeys { shift_left: true, ..no_keys() };
    for _ in 0..4 {
        t.apply_held_keys(&keys);
    }
    // Four zoom-out ticks: the scale fraction is 1001^4 / 1000^4, i.e. 1.001^4.
    assert_eq!(t.zoom_out_ticks, 4);
    assert_eq!(t.zoom_in_ticks, 0);
}

#[test]
fn both_shifts_tick_both_counts() {
    let mut t = CameraTransform::new();
    let keys = HeldKeys { shift_right: true, shift_left: true, ..no_keys() };
    t.apply_held_keys(&keys);
    assert_eq!(t.zoom_in_ticks, 1);
    assert_eq!(t.zoom_out_ticks, 1);
}

#[test]
fn super_keys_rotate_about_z() {
    let mut t = CameraTransform::new();
    let right = HeldKeys { super_right: true, ..no_keys() };
    t.apply_held_keys(&right);
    assert_eq!(t.rot_z_steps, 1);
    let left = HeldKeys { super_left: true, ..no_keys() };
    t.apply_held_keys(&left);
    t.apply_held_keys(&left);
    assert_eq!(t.rot_z_steps, -1);
}

#[test]
fn alt_keys_rotate_about_x() {
    let mut t = CameraTransform::new();
    let right = HeldKeys { alt_right: true, ..no_keys() };
    let left = HeldKeys { alt_left: true, ..no_keys() };
    t.apply_held_keys(&right);
    t.apply_held_keys(&right);
    t.apply_held_keys(&left);
    assert_eq!(t.rot_x_steps, 1);
    assert_eq!(t.rot_y_steps, 0);
    assert_eq!(t.rot_z_steps, 0);
}

#[test]
fn bracket_keys_rotate_about_y() {
    let mut t = CameraTransform::new();
    let right = HeldKeys { bracket_right: true, ..no_keys() };
    let left = HeldKeys { bracket_left: true, ..no_keys() };
    t.apply_held_keys(&left);
    t.apply_held_keys(&left);
    t.apply_held_keys(&right);
    assert_eq!(t.rot_y_steps, -1);
    assert_eq!(t.rot_x_steps, 0);
}

#[test]
fn idle_tick_leaves_transform_unchanged() {
    let mut t = CameraTransform::new();
    let moving = HeldKeys { arrow_up: true, shift_left: true, super_right: true, ..no_keys() };
    t.apply_held_keys(&moving);
    let before = t;
    t.apply_held_keys(&no_keys());
    assert_eq!(t, before);
}

#[test]
fn all_keys_apply_independently() {
    let mut t = CameraTransform::new();
    let keys = HeldKeys {
        arrow_left: false,
        arrow_up: true,
        arrow_right: true,
        arrow_down: false,
        shift_right: true,
        shift_left: false,
        super_right: false,
        super_left: true,
        alt_right: true,
        alt_left: false,
        bracket_right: false,
        bracket_left: true,
    };
    t.apply_held_keys(&keys);
    assert_eq!(t.x, 1);
    assert_eq!(t.y, 1);
    assert_eq!(t.zoom_in_ticks, 1);
    assert_eq!(t.zoom_out_ticks, 0);
    assert_eq!(t.rot_z_steps, -1);
    assert_eq!(t.rot_x_steps, 1);
    assert_eq!(t.rot_y_steps, -1);
}

#[test]
fn new_transform_is_identity() {
    let t = CameraTransform::new();
    assert_eq!(t.x, 0);
    assert_eq!(t.y, 0);
    assert_eq!(t.zoom_in_ticks, 0);
    assert_eq!(t.zoom_out_ticks, 0);
    assert_eq!(t.rot_z_steps, 0);
    assert_eq!(t.rot_x_steps, 0);
    assert_eq!(t.rot_y_steps, 0);
}

#[test]
fn readout_starts_with_placeholder() {
    let r = CursorReadout::new();
    assert_eq!(r.value, "Hello, Bevy!");
}

#[test]
fn cursor_inside_window_rewrites_text() {
    let mut r = CursorReadout::new();
    let pos = CursorPos { x: String::from("128.5"), y: String::from("64") };
    r.tick(Some(&pos));
    assert_eq!(r.value, "World coords: 128.5/64");
}

#[test]
fn cursor_outside_window_leaves_text() {
    let mut r = CursorReadout::new();
    r.tick(None);
    assert_eq!(r.value, "Hello, Bevy!");
    let pos = CursorPos { x: String::from("3"), y: String::from("7") };
    r.tick(Some(&pos));
    r.tick(None);
    assert_eq!(r.value, "World coords: 3/7");
}
