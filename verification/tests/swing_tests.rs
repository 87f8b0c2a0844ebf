use sidescrolling_adventure_game::components::{
    AbilitySet, GroundedState, PlayerIntent, Position, SwingPoint, SwingState, Vec2, Velocity,
};
use sidescrolling_adventure_game::enums::Ability;
use sidescrolling_adventure_game::fixed::{integer_sqrt, TimeStep, ONE};
use sidescrolling_adventure_game::swing::{
    attach_to_swing_system, detect_swing_points_system, pendulum_angular_acceleration, place_on_arc,
    release_swing_system, squared_distance, update_swing_physics_system, SWING_DAMPING, SWING_INPUT_TORQUE,
    SWING_RANGE,
};

fn px(value: f64) -> i32 {
    (value * 1000.0).round() as i32
}

fn airborne() -> GroundedState {
    GroundedState { is_grounded: false, ground_normal: Vec2::zero() }
}

fn swing_with(angular_velocity: i32) -> SwingState {
    SwingState { anchor_point: Vec2::new(0, 0), rope_length: px(100.0), angular_velocity }
}

#[test]
fn test_swing_point_detection_within_range() {
    let player_pos = Position::new(px(100.0), px(100.0));
    let swing_pos = Position::new(px(150.0), px(100.0));
    let swing_point = SwingPoint { range: px(100.0) };

    let nearest = detect_swing_points_system(&player_pos, &vec![(swing_pos, swing_point)]);

    assert!(nearest.is_some(), "Player should be within swing range");
    let (anchor, distance) = nearest.unwrap();
    assert_eq!(anchor, Vec2::new(px(150.0), px(100.0)));
    assert_eq!(distance, px(50.0), "Distance should be 50 pixels");
}

#[test]
fn test_swing_point_detection_out_of_range() {
    let player_pos = Position::new(px(100.0), px(100.0));
    let swing_pos = Position::new(px(300.0), px(100.0));
    let swing_point = SwingPoint { range: px(100.0) };

    let nearest = detect_swing_points_system(&player_pos, &vec![(swing_pos, swing_point)]);

    assert!(nearest.is_none(), "Player should be out of swing range");
}

#[test]
fn test_swing_attachment_requires_ability() {
    let ability_set = AbilitySet::new();
    assert!(!ability_set.has(Ability::Swing), "Should not have swing ability");
    let intent = PlayerIntent { jump_pressed: true, ..Default::default() };
    let nearest = Some((Vec2::new(px(150.0), px(100.0)), px(50.0)));
    assert_eq!(attach_to_swing_system(None, &ability_set, &intent, &airborne(), nearest), None);
}

#[test]
fn test_swing_attachment_with_ability() {
    let mut ability_set = AbilitySet::new();
    ability_set.add(Ability::Swing);
    assert!(ability_set.has(Ability::Swing), "Should have swing ability");
    let intent = PlayerIntent { jump_pressed: true, ..Default::default() };
    let nearest = Some((Vec2::new(px(150.0), px(100.0)), px(50.0)));
    assert_eq!(
        attach_to_swing_system(None, &ability_set, &intent, &airborne(), nearest),
        Some(SwingState { anchor_point: Vec2::new(px(150.0), px(100.0)), rope_length: px(50.0), angular_velocity: 0 })
    );
}

#[test]
fn test_pendulum_angular_acceleration() {
    let gravity = 980.0;
    let rope_length = 100.0;
    // 45 degrees: the offset from the anchor is (L, L) / sqrt(2).
    let offset = px(rope_length * (0.5f64).sqrt()) as i64;

    let angular_acceleration = pendulum_angular_acceleration(offset, offset, px(rope_length));

    let expected = (gravity / rope_length) * 0.707;
    assert!(
        (angular_acceleration as f64 / 1000.0 - expected).abs() < 0.1,
        "Angular acceleration should match pendulum formula"
    );
    assert_eq!(angular_acceleration, 6_929);
}

#[test]
fn test_swing_damping_reduces_velocity() {
    let mut swing = swing_with(10_000);
    let initial_velocity = swing.angular_velocity;

    // At the anchor's own position and without time passing only damping acts.
    update_swing_physics_system(&Position::new(0, 0), &mut swing, &PlayerIntent::default(), TimeStep::from_micros(0));

    assert!(swing.angular_velocity < initial_velocity, "Damping should reduce angular velocity");
    assert!(swing.angular_velocity > 0, "Damping should not reverse direction");
    assert_eq!(swing.angular_velocity, 9_800);
    assert_eq!(SWING_DAMPING, 980);
}

#[test]
fn test_swing_input_affects_angular_velocity() {
    let mut swing = swing_with(0);
    let right = PlayerIntent { move_right: true, ..Default::default() };
    let left = PlayerIntent { move_left: true, ..Default::default() };

    update_swing_physics_system(&Position::new(px(100.0), 0), &mut swing, &right, TimeStep::fixed());

    assert!(swing.angular_velocity > 0, "Right input should increase angular velocity");
    // 2 rad/s² for a sixtieth of a second, damped: 33 * 0.98.
    assert_eq!(swing.angular_velocity, 32);

    update_swing_physics_system(&Position::new(px(100.0), 0), &mut swing, &left, TimeStep::fixed());
    update_swing_physics_system(&Position::new(px(100.0), 0), &mut swing, &left, TimeStep::fixed());

    assert!(swing.angular_velocity < 0, "Left input should decrease angular velocity");
    assert_eq!(SWING_INPUT_TORQUE, 2_000);
}

#[test]
fn test_tangential_velocity_calculation() {
    let swing = SwingState { anchor_point: Vec2::new(0, 0), rope_length: px(100.0), angular_velocity: 1_000 };

    // At angle 0 the rope points along (1, 0).
    let (_, velocity) = place_on_arc(&swing, Vec2::new(ONE, 0));

    assert_eq!(velocity.x, 0, "Horizontal velocity should be 0 at angle 0");
    assert_eq!(velocity.y, px(100.0), "Vertical velocity should equal rope_length * angular_velocity");
}

#[test]
fn test_swing_position_on_arc() {
    let swing = SwingState { anchor_point: Vec2::new(px(100.0), px(200.0)), rope_length: px(50.0), angular_velocity: 0 };

    let (position, _) = place_on_arc(&swing, Vec2::new(ONE, 0));

    assert_eq!(position.x, px(150.0), "Position should be rope_length to the right");
    assert_eq!(position.y, px(200.0), "Position should be at same height");
}

#[test]
fn test_no_swing_when_grounded() {
    let grounded = GroundedState { is_grounded: true, ground_normal: Vec2::new(0, -ONE) };

    assert!(grounded.is_grounded, "Should not be able to swing when grounded");
    let intent = PlayerIntent { jump_pressed: true, ..Default::default() };
    let nearest = Some((Vec2::new(px(150.0), px(100.0)), px(50.0)));
    let abilities = AbilitySet::from(vec![Ability::Swing]);
    assert_eq!(attach_to_swing_system(None, &abilities, &intent, &grounded, nearest), None);
}

#[test]
fn test_swing_allowed_when_airborne() {
    let grounded = airborne();

    assert!(!grounded.is_grounded, "Should be able to swing when airborne");
    let intent = PlayerIntent { jump_pressed: true, ..Default::default() };
    let nearest = Some((Vec2::new(px(150.0), px(100.0)), px(50.0)));
    let abilities = AbilitySet::from(vec![Ability::Swing]);
    assert!(attach_to_swing_system(None, &abilities, &intent, &grounded, nearest).is_some());
}

#[test]
fn attachment_needs_the_button_and_a_point_at_a_distance() {
    let abilities = AbilitySet::from(vec![Ability::Swing]);
    let pressed = PlayerIntent { jump_pressed: true, ..Default::default() };
    let anchor = Vec2::new(px(150.0), px(100.0));
    assert_eq!(attach_to_swing_system(None, &abilities, &PlayerIntent::default(), &airborne(), Some((anchor, 5))), None);
    assert_eq!(attach_to_swing_system(None, &abilities, &pressed, &airborne(), None), None);
    assert_eq!(attach_to_swing_system(None, &abilities, &pressed, &airborne(), Some((anchor, 0))), None);
    assert_eq!(attach_to_swing_system(None, &abilities, &pressed, &airborne(), Some((anchor, -4))), None);
    let held = Some(swing_with(77));
    assert_eq!(attach_to_swing_system(held, &AbilitySet::new(), &pressed, &airborne(), Some((anchor, 5))), held);
}

#[test]
fn nearest_swing_point_wins_and_zero_distance_is_no_point() {
    let player = Position::new(0, 0);
    let usual = SwingPoint { range: SWING_RANGE };
    let points = vec![
        (Position::new(0, 0), usual),
        (Position::new(px(60.0), px(80.0)), usual),
        (Position::new(px(30.0), px(-40.0)), usual),
        (Position::new(px(-30.0), px(40.0)), usual),
        (Position::new(px(3.0), px(4.0)), SwingPoint { range: px(4.9) }),
        (Position::new(px(1.0), 0), SwingPoint { range: -1 }),
    ];
    assert_eq!(detect_swing_points_system(&player, &points), Some((Vec2::new(px(30.0), px(-40.0)), px(50.0))));
    assert_eq!(detect_swing_points_system(&player, &vec![(Position::new(0, 0), usual)]), None);
    assert_eq!(detect_swing_points_system(&player, &Vec::new()), None);
    // Exactly at the edge of the range; and the distance is rounded down.
    assert_eq!(
        detect_swing_points_system(&player, &vec![(Position::new(px(60.0), px(80.0)), usual)]),
        Some((Vec2::new(px(60.0), px(80.0)), px(100.0)))
    );
    assert_eq!(
        detect_swing_points_system(&player, &vec![(Position::new(1, 1), usual)]),
        Some((Vec2::new(1, 1), 1))
    );
}

#[test]
fn pendulum_is_not_accelerated_on_the_level_of_the_anchor() {
    assert_eq!(pendulum_angular_acceleration(px(100.0) as i64, 0, px(100.0)), 0);
    assert_eq!(pendulum_angular_acceleration(0, 0, px(100.0)), 0);
    // Straight below the anchor the sine is one: g / L = 9.8.
    assert_eq!(pendulum_angular_acceleration(0, px(100.0) as i64, px(100.0)), 9_800);
    assert_eq!(pendulum_angular_acceleration(0, px(-100.0) as i64, px(100.0)), -9_800);
}

#[test]
fn swing_step_accelerates_steers_and_damps() {
    let mut swing = swing_with(1_000);
    let position = Position::new(0, px(100.0));
    let angle_step = update_swing_physics_system(&position, &mut swing, &PlayerIntent::default(), TimeStep::fixed());
    // 1000 + 9800 / 60 = 1163, damped by 0.98.
    assert_eq!(swing.angular_velocity, 1_139);
    assert_eq!(angle_step, 18);
    assert_eq!(swing.anchor_point, Vec2::new(0, 0));
    assert_eq!(swing.rope_length, px(100.0));
    let mut reversed = swing_with(-10_000);
    update_swing_physics_system(&Position::new(0, 0), &mut reversed, &PlayerIntent::default(), TimeStep::from_micros(0));
    assert_eq!(reversed.angular_velocity, -9_800);
    let mut tiny = swing_with(1);
    update_swing_physics_system(&Position::new(0, 0), &mut tiny, &PlayerIntent::default(), TimeStep::from_micros(0));
    assert_eq!(tiny.angular_velocity, 0);
}

#[test]
fn arc_velocity_is_at_right_angles_to_the_rope() {
    let swing = SwingState { anchor_point: Vec2::new(px(10.0), px(20.0)), rope_length: px(100.0), angular_velocity: 2_000 };
    // The rope points straight down.
    let (position, velocity) = place_on_arc(&swing, Vec2::new(0, ONE));
    assert_eq!(position, Position::new(px(10.0), px(120.0)));
    assert_eq!(velocity, Velocity::new(px(-200.0), 0));
}

#[test]
fn release_follows_the_jump_button() {
    let held = Some(swing_with(500));
    let released = PlayerIntent { jump_just_released: true, ..Default::default() };
    assert_eq!(release_swing_system(&released, held), None);
    assert_eq!(release_swing_system(&PlayerIntent::default(), held), held);
    assert_eq!(release_swing_system(&released, None), None);
}

#[test]
fn integer_square_root_rounds_down() {
    assert_eq!(integer_sqrt(0), 0);
    assert_eq!(integer_sqrt(1), 1);
    assert_eq!(integer_sqrt(3), 1);
    assert_eq!(integer_sqrt(4), 2);
    assert_eq!(integer_sqrt(99), 9);
    assert_eq!(integer_sqrt(10_000_000_000), 100_000);
    assert_eq!(integer_sqrt(u128::MAX), u64::MAX);
    assert_eq!(squared_distance(&Position::new(3, -4), &Position::new(0, 0)), 25);
    assert_eq!(squared_distance(&Position::new(i32::MIN, 0), &Position::new(i32::MAX, 0)), (u32::MAX as i128) * (u32::MAX as i128));
}

#[test]
fn placed_entity_is_at_the_rope_length_from_the_anchor() {
    let swing = SwingState { anchor_point: Vec2::new(px(10.0), px(20.0)), rope_length: px(100.0), angular_velocity: 0 };
    let (position, _) = place_on_arc(&swing, Vec2::new(600, -800));
    assert_eq!(position, Position::new(px(70.0), px(-60.0)));
    assert_eq!(squared_distance(&position, &Position::new(px(10.0), px(20.0))), 10_000_000_000);
    // A direction rounded down to thousandths is a little short of unit length, and so is the distance.
    let (position, _) = place_on_arc(&swing, Vec2::new(707, 707));
    let distance = integer_sqrt(squared_distance(&position, &Position::new(px(10.0), px(20.0))) as u128);
    assert_eq!(distance, 99_984);
}
