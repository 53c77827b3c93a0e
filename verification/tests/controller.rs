use voxel_sim::geom::{apply_orientation, Trig, Vec3I, TRIG_ONE};
use voxel_sim::input::{MotionBuffer, MotionDelta};
use voxel_sim::player::{
    camera_follow_system, cursor_grab_system, initial_grab_cursor, intent_vector,
    player_controls_system, player_look_system, spawn_player, toggle_grab_cursor, CursorState,
    InputState, KeyInput, Orientation, Pose, JUMP_IMPULSE, PITCH_LIMIT, PLAYER_HALF_X,
    PLAYER_HALF_Y,
};
use voxel_sim::{BodyKind, UNIT};

const E: i64 = TRIG_ONE;

fn keys(forward: bool, back: bool, left: bool, right: bool, jump: bool) -> KeyInput {
    KeyInput { forward, back, left, right, jump }
}

#[test]
fn intent_forward_strafe_right_is_unnormalized_diagonal() {
    let v = intent_vector(&keys(true, false, false, true, false));
    assert_eq!((v.x, v.y, v.z), (1, 0, -1));
}

#[test]
fn intent_opposite_keys_cancel() {
    let v = intent_vector(&keys(true, true, true, true, false));
    assert_eq!((v.x, v.y, v.z), (0, 0, 0));
}

#[test]
fn controls_forward_strafe_right_yaw_zero() {
    let ident = Trig { c: E, s: 0 };
    let mut vel = Vec3I { x: 0, y: 0, z: 0 };
    let a = player_controls_system(&keys(true, false, false, true, false), ident, ident, &mut vel);
    // direction (1, 0, -1), scaled by 10 and by TRIG_ONE twice
    assert_eq!((a.x, a.y, a.z), (10 * E * E, 0, -10 * E * E));
    assert_eq!((vel.x, vel.y, vel.z), (0, 0, 0));
}

#[test]
fn controls_forward_strafe_right_yaw_quarter_turn() {
    let quarter = Trig { c: 0, s: E };
    let ident = Trig { c: E, s: 0 };
    let mut vel = Vec3I { x: 0, y: 0, z: 0 };
    let a = player_controls_system(&keys(true, false, false, true, false), quarter, ident, &mut vel);
    // (1, 0, -1) rotated by +90 degrees about the up axis is (-1, 0, -1)
    assert_eq!((a.x, a.y, a.z), (-10 * E * E, 0, -10 * E * E));
}

#[test]
fn controls_jump_adds_fixed_upward_impulse_once() {
    let ident = Trig { c: E, s: 0 };
    let mut vel = Vec3I { x: 3, y: 7, z: -4 };
    let _ = player_controls_system(&keys(false, false, false, false, true), ident, ident, &mut vel);
    assert_eq!((vel.x, vel.y, vel.z), (3, 7 + JUMP_IMPULSE, -4));
}

#[test]
fn orientation_composition_order_changes_result() {
    // fixed order: pitch about the right axis, then yaw about up
    let quarter = Trig { c: 0, s: E };
    let up = Vec3I { x: 0, y: 1, z: 0 };
    let fixed = apply_orientation(quarter, quarter, up);
    assert_eq!((fixed.x, fixed.y, fixed.z), (E * E, 0, 0));
    // the swapped order, computed by hand: yaw first, then pitch
    let (yx, yy, yz) = (0 * 0 + E * 0, E * up.y, 0 * 0 - E * 0); // yaw on (0,1,0)
    let swapped = (E * yx, 0 * yy - E * yz, E * yy + 0 * yz);
    assert_eq!(swapped, (0, 0, E * E));
    assert_ne!((fixed.x, fixed.y, fixed.z), swapped);
}

#[test]
fn look_consumes_all_ten_buffered_events() {
    let mut buffer = MotionBuffer::new();
    for k in 0..10 {
        buffer.push(MotionDelta { dx: k + 1, dy: -(k + 1) });
    }
    let mut state = InputState::new();
    let mut orientation = Orientation { yaw: 0, pitch: 0 };
    let consumed = player_look_system(&mut state, &mut buffer, true, 1, 1, &mut orientation);
    assert_eq!(consumed, 10);
    // sum of 1..=10 is 55; yaw and pitch reflect the sum of all ten deltas
    assert_eq!(state.yaw, -55);
    assert_eq!(state.pitch, 55);
    assert_eq!(orientation.yaw, -55);
    assert_eq!(orientation.pitch, 55);
    // a second pass has nothing left to consume
    let consumed_again = player_look_system(&mut state, &mut buffer, true, 1, 1, &mut orientation);
    assert_eq!(consumed_again, 0);
    assert_eq!(state.yaw, -55);
}

#[test]
fn look_pitch_clamps_under_event_burst() {
    let mut buffer = MotionBuffer::new();
    for _ in 0..50 {
        buffer.push(MotionDelta { dx: 0, dy: -1_000_000 });
    }
    let mut state = InputState::new();
    let mut orientation = Orientation { yaw: 0, pitch: 0 };
    player_look_system(&mut state, &mut buffer, true, 1_000_000, 1_000_000, &mut orientation);
    assert_eq!(state.pitch, PITCH_LIMIT);
    // and the same burst downward pins the other end of the range
    for _ in 0..50 {
        buffer.push(MotionDelta { dx: 0, dy: 1_000_000 });
    }
    player_look_system(&mut state, &mut buffer, true, 1_000_000, 1_000_000, &mut orientation);
    assert_eq!(state.pitch, -PITCH_LIMIT);
    assert!(-PITCH_LIMIT <= state.pitch && state.pitch <= PITCH_LIMIT);
}

#[test]
fn look_uncaptured_drains_but_accumulates_nothing() {
    let mut buffer = MotionBuffer::new();
    buffer.push(MotionDelta { dx: 500, dy: 700 });
    buffer.push(MotionDelta { dx: -200, dy: 100 });
    let mut state = InputState::new();
    let mut orientation = Orientation { yaw: 9, pitch: -9 };
    let consumed = player_look_system(&mut state, &mut buffer, false, 1, 1, &mut orientation);
    assert_eq!(consumed, 2);
    assert_eq!((state.yaw, state.pitch), (0, 0));
    assert_eq!((orientation.yaw, orientation.pitch), (9, -9));
    // the burst did not pile up: recapturing sees an empty buffer
    let consumed_again = player_look_system(&mut state, &mut buffer, true, 1, 1, &mut orientation);
    assert_eq!(consumed_again, 0);
    assert_eq!((state.yaw, state.pitch), (0, 0));
}

#[test]
fn look_scales_by_sensitivity_and_viewport() {
    let mut buffer = MotionBuffer::new();
    buffer.push(MotionDelta { dx: 3, dy: -2 });
    let mut state = InputState::new();
    let mut orientation = Orientation { yaw: 0, pitch: 0 };
    player_look_system(&mut state, &mut buffer, true, 2, 5, &mut orientation);
    assert_eq!(state.yaw, -30);
    assert_eq!(state.pitch, 20);
}

#[test]
fn camera_copies_pose_verbatim() {
    let player = Pose {
        position: Vec3I { x: 10, y: 20, z: 30 },
        orientation: Orientation { yaw: -5, pitch: 4 },
    };
    let mut camera = Pose {
        position: Vec3I { x: 0, y: 0, z: 0 },
        orientation: Orientation { yaw: 0, pitch: 0 },
    };
    camera_follow_system(&player, &mut camera);
    assert_eq!(camera, player);
}

#[test]
fn cursor_toggle_flips_lock_and_visibility() {
    let mut w = CursorState::new();
    assert!(!w.locked && w.visible);
    toggle_grab_cursor(&mut w);
    assert!(w.locked && !w.visible);
    toggle_grab_cursor(&mut w);
    assert!(!w.locked && w.visible);
}

#[test]
fn cursor_grab_starts_captured_and_key_toggles() {
    let mut w = CursorState::new();
    initial_grab_cursor(&mut w);
    assert!(w.locked && !w.visible);
    cursor_grab_system(false, &mut w);
    assert!(w.locked && !w.visible);
    cursor_grab_system(true, &mut w);
    assert!(!w.locked && w.visible);
}

#[test]
fn spawn_player_descriptor() {
    let s = spawn_player(8);
    assert_eq!((s.pose.position.x, s.pose.position.y, s.pose.position.z), (-2 * UNIT, 8 * UNIT, 5 * UNIT));
    assert_eq!(s.pose.orientation, Orientation { yaw: 0, pitch: 0 });
    assert_eq!((s.velocity.x, s.velocity.y, s.velocity.z), (0, 0, 0));
    assert_eq!((s.acceleration.x, s.acceleration.y, s.acceleration.z), (0, 0, 0));
    assert_eq!(
        (s.half_extents.x, s.half_extents.y, s.half_extents.z),
        (PLAYER_HALF_X, PLAYER_HALF_Y, PLAYER_HALF_X)
    );
    assert_eq!(s.body, BodyKind::Dynamic);
}
