use fps_movement::collider::ColliderShape;
use fps_movement::config::ControllerConfig;
use fps_movement::fixed::{LIMIT, ONE};
use fps_movement::intent::{
    axis_of, sample_input, wish, wish_velocity, wrap_yaw, Heading, HeldKeys, InputIntent, Wish, PI,
    PITCH_LIMIT, TAU,
};
use fps_movement::pose::{project_pose, RenderPose};
use fps_movement::state::ControllerState;
use fps_movement::vector::Vec3;

fn fx(x: f64) -> i64 {
    (x * ONE as f64).round() as i64
}

fn units(x: i64) -> f64 {
    x as f64 / ONE as f64
}

fn close(x: i64, expected: f64) -> bool {
    (units(x) - expected).abs() < 1e-3
}

fn config() -> ControllerConfig {
    ControllerConfig {
        gravity: fx(23.0),
        walk_speed_cap: fx(9.0),
        crouch_speed_cap: fx(5.0),
        forward_speed: fx(30.0),
        side_speed: fx(20.0),
        acceleration: fx(10.0),
        air_acceleration: fx(80.0),
        air_speed_cap: fx(2.0),
        max_air_speed: fx(15.0),
        friction: fx(10.0),
        stop_speed: fx(1.0),
        friction_speed_cutoff: fx(0.1),
        traction_normal_cutoff: fx(0.7),
        jump_speed: fx(8.5),
        crouch_speed: fx(6.0),
        uncrouch_speed: fx(8.0),
        crouch_height: fx(2.0),
        upright_height: fx(3.0),
        step_offset: fx(0.25),
        sensitivity: fx(0.001),
    }
}

fn keys() -> HeldKeys {
    HeldKeys { forward: false, back: false, left: false, right: false, jump: false, crouch: false }
}

fn heading(yaw: f64) -> Heading {
    Heading { sin: fx(yaw.sin()), cos: fx(yaw.cos()) }
}

#[test]
fn angles_are_rounded_to_the_nearest_stored_number() {
    assert_eq!(PI, fx(std::f64::consts::PI));
    assert_eq!(TAU, fx(std::f64::consts::TAU));
    assert_eq!(PITCH_LIMIT, fx(std::f64::consts::FRAC_PI_2) - 2048);
}

#[test]
fn axes_follow_the_keys() {
    assert_eq!(axis_of(true, false), ONE);
    assert_eq!(axis_of(false, true), -ONE);
    assert_eq!(axis_of(true, true), 0);
    assert_eq!(axis_of(false, false), 0);
}

#[test]
fn sampling_reads_keys_into_the_intent() {
    let held = HeldKeys { forward: true, left: true, jump: true, ..keys() };
    let intent = sample_input(&InputIntent::idle(), &held, 0, 0, fx(0.001));
    assert_eq!(intent.movement, Vec3::new(-ONE, 0, ONE));
    assert!(intent.jump);
    assert!(!intent.crouch);
    assert_eq!(intent.pitch, 0);
    assert_eq!(intent.yaw, 0);
    let held = HeldKeys { back: true, right: true, crouch: true, ..keys() };
    let intent = sample_input(&InputIntent::idle(), &held, 0, 0, fx(0.001));
    assert_eq!(intent.movement, Vec3::new(ONE, 0, -ONE));
    assert!(intent.crouch);
    assert!(!intent.jump);
    let held = HeldKeys { forward: true, back: true, left: true, right: true, ..keys() };
    let intent = sample_input(&InputIntent::idle(), &held, 0, 0, fx(0.001));
    assert_eq!(intent.movement, Vec3::zero());
}

#[test]
fn sampling_turns_by_pointer_motion_times_sensitivity() {
    let intent = sample_input(&InputIntent::idle(), &keys(), fx(100.0), fx(-50.0), fx(0.001));
    assert!(close(intent.yaw, -0.1));
    assert!(close(intent.pitch, 0.05));
    assert_eq!(intent.yaw, -104_900);
    assert_eq!(intent.pitch, 52_450);
    let next = sample_input(&intent, &keys(), fx(-300.0), fx(50.0), fx(0.001));
    assert!(close(next.yaw, 0.2));
    assert!(close(next.pitch, 0.0));
}

#[test]
fn pitch_stops_short_of_straight_up_and_down() {
    let up = sample_input(&InputIntent::idle(), &keys(), 0, fx(-5000.0), fx(0.001));
    assert_eq!(up.pitch, PITCH_LIMIT);
    let down = sample_input(&up, &keys(), 0, fx(50000.0), fx(0.001));
    assert_eq!(down.pitch, -PITCH_LIMIT);
    assert!(close(PITCH_LIMIT, std::f64::consts::FRAC_PI_2 - 0.001953125));
    let extreme = sample_input(&InputIntent::idle(), &keys(), LIMIT, -LIMIT, LIMIT);
    assert_eq!(extreme.pitch, PITCH_LIMIT);
    assert!(extreme.is_valid());
}

#[test]
fn yaw_within_half_a_turn_is_kept() {
    assert_eq!(wrap_yaw(0), 0);
    assert_eq!(wrap_yaw(PI), PI);
    assert_eq!(wrap_yaw(-PI), -PI);
    assert_eq!(wrap_yaw(fx(-3.0)), fx(-3.0));
    assert_eq!(wrap_yaw(fx(1.0)), fx(1.0));
}

#[test]
fn yaw_beyond_half_a_turn_wraps_into_a_full_turn_from_zero() {
    assert_eq!(wrap_yaw(PI + 1), PI + 1);
    assert_eq!(wrap_yaw(-PI - 1), TAU - PI - 1);
    assert_eq!(wrap_yaw(TAU), 0);
    assert_eq!(wrap_yaw(-TAU), 0);
    assert_eq!(wrap_yaw(TAU + 5), 5);
    assert_eq!(wrap_yaw(-TAU - 5), TAU - 5);
    assert_eq!(wrap_yaw(fx(4.0)), fx(4.0));
    assert_eq!(wrap_yaw(fx(7.0)), fx(7.0) - TAU);
    assert_eq!(wrap_yaw(fx(-4.0)), fx(-4.0) + TAU);
    assert_eq!(wrap_yaw(3 * TAU + 17), 17);
    assert_eq!(wrap_yaw(-3 * TAU + 17), 17);
    let far = wrap_yaw(i64::MIN + 1);
    assert!(0 <= far && far < TAU);
    let intent = sample_input(&InputIntent::idle(), &keys(), fx(4096.0), 0, 1024);
    assert_eq!(intent.yaw, fx(-4.0) + TAU);
    assert!(close(intent.yaw, -4.0 + std::f64::consts::TAU));
    let back = sample_input(&intent, &keys(), fx(-4096.0), 0, 1024);
    assert_eq!(back.yaw, fx(-4.0) + TAU + fx(4.0) - TAU);
}

#[test]
fn intents_are_checked() {
    assert!(InputIntent::idle().is_valid());
    let mut intent = InputIntent::idle();
    intent.movement = Vec3::new(ONE + 1, 0, 0);
    assert!(!intent.is_valid());
    intent.movement = Vec3::new(ONE, -ONE, ONE);
    assert!(intent.is_valid());
    intent.pitch = PITCH_LIMIT + 1;
    assert!(!intent.is_valid());
    intent.pitch = -PITCH_LIMIT;
    intent.yaw = LIMIT + 1;
    assert!(!intent.is_valid());
    assert!(Wish { direction: Vec3::new(0, 0, -ONE), speed: 0 }.is_valid());
    assert!(Wish { direction: Vec3::new(629_145, 0, 838_860), speed: LIMIT }.is_valid());
    assert!(!Wish { direction: Vec3::new(ONE, 0, 1), speed: 0 }.is_valid());
    assert!(!Wish { direction: Vec3::new(0, ONE + 1, 0), speed: 0 }.is_valid());
    assert!(!Wish { direction: Vec3::zero(), speed: -1 }.is_valid());
    assert!(!Wish { direction: Vec3::zero(), speed: LIMIT + 1 }.is_valid());
    assert!(Heading { sin: ONE, cos: -ONE }.is_valid());
    assert!(!Heading { sin: ONE + 1, cos: 0 }.is_valid());
    assert!(!Heading { sin: 0, cos: -ONE - 1 }.is_valid());
}

#[test]
fn forward_is_along_negative_z_at_yaw_zero() {
    let cfg = config();
    let wished = wish_velocity(Vec3::new(0, 0, ONE), &heading(0.0), &cfg);
    assert_eq!(wished, Vec3::new(0, 0, fx(-30.0)));
    let wished = wish_velocity(Vec3::new(ONE, 0, 0), &heading(0.0), &cfg);
    assert_eq!(wished, Vec3::new(fx(20.0), 0, 0));
    let wished = wish_velocity(Vec3::new(ONE, ONE, ONE), &heading(0.0), &cfg);
    assert_eq!(wished, Vec3::new(fx(20.0), 0, fx(-30.0)));
}

#[test]
fn the_wish_turns_with_the_yaw() {
    let cfg = config();
    let quarter = Heading { sin: ONE, cos: 0 };
    assert_eq!(
        wish_velocity(Vec3::new(0, 0, ONE), &quarter, &cfg),
        Vec3::new(fx(-30.0), 0, 0)
    );
    assert_eq!(
        wish_velocity(Vec3::new(ONE, 0, 0), &quarter, &cfg),
        Vec3::new(0, 0, fx(-20.0))
    );
    let yaw: f64 = 0.7;
    let wished = wish_velocity(Vec3::new(ONE, 0, ONE), &heading(yaw), &cfg);
    assert!(close(wished.x, yaw.cos() * 20.0 - yaw.sin() * 30.0));
    assert!(close(wished.z, -yaw.sin() * 20.0 - yaw.cos() * 30.0));
    assert_eq!(wished.y, 0);
}

#[test]
fn the_wish_is_a_direction_and_a_capped_speed() {
    let cfg = config();
    let mut intent = InputIntent::idle();
    intent.movement = Vec3::new(0, 0, ONE);
    let wished = wish(&intent, &heading(0.0), &cfg);
    assert_eq!(wished.direction, Vec3::new(0, 0, -ONE));
    assert_eq!(wished.speed, fx(9.0));
    intent.crouch = true;
    assert_eq!(wish(&intent, &heading(0.0), &cfg).speed, fx(5.0));
    intent.movement = Vec3::new(0, 0, fx(0.1));
    let slow = wish(&intent, &heading(0.0), &cfg);
    assert!(close(slow.speed, 3.0));
    assert_eq!(slow.direction, Vec3::new(0, 0, -ONE));
    intent.movement = Vec3::zero();
    let idle = wish(&intent, &heading(0.0), &cfg);
    assert_eq!(idle.direction, Vec3::zero());
    assert_eq!(idle.speed, 0);
    intent.movement = Vec3::new(ONE, 0, ONE);
    let diagonal = wish(&intent, &heading(0.0), &cfg);
    assert!(close(diagonal.direction.x, 20.0 / 1300f64.sqrt()));
    assert!(close(diagonal.direction.z, -30.0 / 1300f64.sqrt()));
}

#[test]
fn a_new_controller_is_at_rest_and_in_range() {
    let cfg = config();
    let shape = ColliderShape::Cylinder { radius: fx(0.5) };
    let state = ControllerState::new(&cfg, shape, Vec3::new(0, fx(1.625), 0), fx(2.0), fx(-0.5), fx(3.0));
    assert_eq!(state.position, Vec3::new(0, fx(1.625), 0));
    assert_eq!(state.velocity, Vec3::zero());
    assert_eq!(state.yaw, fx(2.0));
    assert_eq!(state.pitch, fx(-0.5));
    assert_eq!(state.height, fx(3.0));
    assert_eq!(state.ground_tick, 0);
    assert_eq!(state.collider_shape, shape);
    assert!(state.is_valid(&cfg));
    let tall = ControllerState::new(&cfg, shape, Vec3::zero(), 0, fx(2.0), fx(9.0));
    assert_eq!(tall.height, fx(3.0));
    assert_eq!(tall.pitch, PITCH_LIMIT);
    let small = ControllerState::new(&cfg, shape, Vec3::zero(), 0, fx(-2.0), 0);
    assert_eq!(small.height, fx(2.0));
    assert_eq!(small.pitch, -PITCH_LIMIT);
}

#[test]
fn states_are_checked() {
    let cfg = config();
    let shape = ColliderShape::Capsule { radius: fx(0.5) };
    let state = ControllerState::new(&cfg, shape, Vec3::zero(), 0, 0, fx(3.0));
    assert!(state.is_valid(&cfg));
    assert!(!ControllerState { height: fx(1.0), ..state }.is_valid(&cfg));
    assert!(!ControllerState { height: fx(3.5), ..state }.is_valid(&cfg));
    assert!(!ControllerState { pitch: PITCH_LIMIT + 1, ..state }.is_valid(&cfg));
    assert!(!ControllerState { yaw: -LIMIT - 1, ..state }.is_valid(&cfg));
    assert!(!ControllerState { velocity: Vec3::new(0, LIMIT + 1, 0), ..state }.is_valid(&cfg));
    assert!(!ControllerState { position: Vec3::new(-LIMIT - 1, 0, 0), ..state }.is_valid(&cfg));
    assert!(!ControllerState { collider_shape: ColliderShape::Capsule { radius: -1 }, ..state }
        .is_valid(&cfg));
}

#[test]
fn looking_copies_yaw_and_clamps_pitch() {
    let cfg = config();
    let shape = ColliderShape::Capsule { radius: fx(0.5) };
    let mut state = ControllerState::new(&cfg, shape, Vec3::new(1, 2, 3), 0, 0, fx(3.0));
    let before = state;
    let mut intent = InputIntent::idle();
    intent.yaw = fx(4.0);
    intent.pitch = fx(0.3);
    state.look(&intent);
    assert_eq!(state.yaw, fx(4.0));
    assert_eq!(state.pitch, fx(0.3));
    assert_eq!(state.position, before.position);
    assert_eq!(state.velocity, before.velocity);
    assert_eq!(state.height, before.height);
    intent.pitch = fx(2.0);
    state.look(&intent);
    assert_eq!(state.pitch, PITCH_LIMIT);
    intent.pitch = fx(-2.0);
    state.look(&intent);
    assert_eq!(state.pitch, -PITCH_LIMIT);
}

#[test]
fn the_pose_is_the_position_with_the_camera_offset() {
    let cfg = config();
    let shape = ColliderShape::Capsule { radius: fx(0.5) };
    let state =
        ControllerState::new(&cfg, shape, Vec3::new(fx(1.0), fx(2.0), fx(3.0)), fx(0.5), fx(-0.25), fx(3.0));
    assert_eq!(
        project_pose(&state, fx(-0.5)),
        RenderPose {
            position: Vec3::new(fx(1.0), fx(1.5), fx(3.0)),
            yaw: fx(0.5),
            pitch: fx(-0.25),
        }
    );
    assert_eq!(project_pose(&state, 0).position, state.position);
}
