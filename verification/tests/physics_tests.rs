use sidescrolling_adventure_game::components::{
    Collider, GroundedState, LevelGeometry, PlayerIntent, Position, Vec2, Velocity, WallClimbState,
};
use sidescrolling_adventure_game::fixed::{Fraction, TimeStep, ONE};
use sidescrolling_adventure_game::physics::{
    apply_gravity, apply_slope_friction, apply_slope_physics, apply_slope_sliding, find_earliest_collision,
    project_velocity, resolve_collisions, step_displacement, swept_aabb_collision, update_grounded_state,
    update_wall_contact, CollisionResult, GRAVITY, GROUND_CHECK_EPSILON, SLOPE_FRICTION,
};

fn px(value: f64) -> i32 {
    (value * 1000.0).round() as i32
}

fn airborne() -> GroundedState {
    GroundedState { is_grounded: false, ground_normal: Vec2::zero() }
}

fn free() -> WallClimbState {
    WallClimbState::default()
}

fn rect(x: f64, y: f64, width: f64, height: f64) -> LevelGeometry {
    LevelGeometry { x: px(x), y: px(y), width: px(width), height: px(height) }
}

#[test]
fn test_gravity_applied_when_airborne() {
    let mut velocity = Velocity::new(0, 0);
    let grounded = airborne();

    apply_gravity(&mut velocity, &grounded, &free(), TimeStep::fixed());

    let expected_velocity = GRAVITY as f64 / 60.0;
    assert!(
        (velocity.y as f64 - expected_velocity).abs() < 10.0,
        "Expected velocity.y to be ~{}, got {}",
        expected_velocity,
        velocity.y
    );
    assert_eq!(velocity.y, 16_333);
}

#[test]
fn test_gravity_not_applied_when_grounded() {
    let mut velocity = Velocity::new(0, 0);
    let grounded = GroundedState { is_grounded: true, ground_normal: Vec2::new(0, -ONE) };

    apply_gravity(&mut velocity, &grounded, &free(), TimeStep::fixed());

    assert_eq!(velocity.y, 0);
}

#[test]
fn test_velocity_integration() {
    let mut position = Position::new(px(100.0), px(200.0));
    let mut velocity = Velocity::new(px(50.0), px(-100.0));

    resolve_collisions(&mut position, &mut velocity, &Collider::new(px(32.0), px(32.0)), &Vec::new(), TimeStep::fixed());

    let expected_x = 100_000.0 + 50_000.0 / 60.0;
    let expected_y = 200_000.0 + (-100_000.0) / 60.0;
    assert!((position.x as f64 - expected_x).abs() < 10.0, "Expected position.x to be ~{}, got {}", expected_x, position.x);
    assert!((position.y as f64 - expected_y).abs() < 10.0, "Expected position.y to be ~{}, got {}", expected_y, position.y);
    assert_eq!(position, Position::new(100_833, 198_334));
    assert_eq!(velocity, Velocity::new(px(50.0), px(-100.0)));
}

fn run_simulation() -> (Position, Velocity) {
    let mut position = Position::new(px(100.0), px(200.0));
    let mut velocity = Velocity::new(px(50.0), px(-100.0));
    let grounded = airborne();
    let collider = Collider::new(px(32.0), px(32.0));
    for _ in 0..10 {
        apply_gravity(&mut velocity, &grounded, &free(), TimeStep::fixed());
        resolve_collisions(&mut position, &mut velocity, &collider, &Vec::new(), TimeStep::fixed());
    }
    (position, velocity)
}

#[test]
fn test_deterministic_physics() {
    let (pos1, vel1) = run_simulation();
    let (pos2, vel2) = run_simulation();

    assert_eq!(pos1.x, pos2.x);
    assert_eq!(pos1.y, pos2.y);
    assert_eq!(vel1.x, vel2.x);
    assert_eq!(vel1.y, vel2.y);
}

#[test]
fn test_gravity_accumulates_over_time() {
    let mut velocity = Velocity::new(0, 0);
    let grounded = airborne();

    for _ in 0..5 {
        apply_gravity(&mut velocity, &grounded, &free(), TimeStep::fixed());
    }

    let expected_velocity = GRAVITY as f64 / 60.0 * 5.0;
    assert!(
        (velocity.y as f64 - expected_velocity).abs() < 10.0,
        "Expected velocity.y to be ~{}, got {}",
        expected_velocity,
        velocity.y
    );
    assert_eq!(velocity.y, 5 * 16_333);
}

#[test]
fn test_horizontal_velocity_integration() {
    let mut position = Position::new(0, 0);
    let mut velocity = Velocity::new(px(200.0), 0);
    let collider = Collider::new(px(32.0), px(32.0));

    for _ in 0..60 {
        resolve_collisions(&mut position, &mut velocity, &collider, &Vec::new(), TimeStep::fixed());
    }

    assert!((position.x - px(200.0)).abs() < 100, "Expected position.x to be ~200.0, got {}", position.x);
    assert!(position.y.abs() < 10, "Expected position.y to be ~0.0, got {}", position.y);
}

#[test]
fn test_swept_aabb_detects_collision() {
    let position = Position::new(0, 0);
    let collider = Collider::new(px(32.0), px(32.0));
    let geometry = rect(50.0, 0.0, 100.0, 32.0);

    let movement = Vec2::new(px(30.0), 0);

    let result = swept_aabb_collision(&position, &collider, &geometry, movement);
    assert!(result.is_some(), "Should detect collision");

    if let Some((time, normal)) = result {
        assert!(time.den > 0 && time.num <= time.den, "Time should be in [0, 1]");
        assert_eq!(normal, Vec2::new(-ONE, 0), "Should hit left side of geometry");
        assert_eq!(time, Fraction { num: 18_000, den: 30_000 });
    }
}

#[test]
fn test_swept_aabb_no_collision() {
    let position = Position::new(0, 0);
    let collider = Collider::new(px(32.0), px(32.0));
    let geometry = rect(100.0, 100.0, 50.0, 50.0);

    let movement = Vec2::new(px(-10.0), px(-10.0));

    let result = swept_aabb_collision(&position, &collider, &geometry, movement);
    assert!(result.is_none(), "Should not detect collision");
}

#[test]
fn test_swept_aabb_vertical_collision() {
    let position = Position::new(0, px(100.0));
    let collider = Collider::new(px(32.0), px(32.0));
    let geometry = rect(0.0, 0.0, 100.0, 32.0);

    let movement = Vec2::new(0, px(-80.0));

    let result = swept_aabb_collision(&position, &collider, &geometry, movement);
    assert!(result.is_some(), "Should detect collision with ground");

    if let Some((time, normal)) = result {
        assert!(time.den > 0 && time.num <= time.den, "Time should be in [0, 1]");
        assert_eq!(normal, Vec2::new(0, ONE), "Should hit top of ground (normal points up)");
        assert_eq!(time, Fraction { num: 68_000, den: 80_000 });
    }
}

#[test]
fn test_velocity_projection_on_collision() {
    let velocity = Velocity::new(px(100.0), px(200.0));
    let normal = Vec2::new(0, ONE);

    let velocity = project_velocity(&velocity, normal);

    assert_eq!(velocity.x, px(100.0), "Horizontal velocity should be unchanged");
    assert_eq!(velocity.y, 0, "Vertical velocity should be zero after ground collision");
}

#[test]
fn test_no_tunneling_through_thin_walls() {
    let position = Position::new(0, 0);
    let collider = Collider::new(px(32.0), px(32.0));
    let thin_wall = rect(40.0, 0.0, 5.0, 100.0);

    let movement = Vec2::new(px(100.0), 0);

    let result = swept_aabb_collision(&position, &collider, &thin_wall, movement);
    assert!(result.is_some(), "Should detect collision even with high velocity");
    assert_eq!(result, Some((Fraction { num: 8_000, den: 100_000 }, Vec2::new(-ONE, 0))));
}

#[test]
fn test_ground_detection() {
    let position = Position::new(0, px(50.0));
    let collider = Collider::new(px(32.0), px(32.0));
    let ground = rect(0.0, 0.0, 200.0, 32.0);

    let check_movement = Vec2::new(0, GROUND_CHECK_EPSILON);

    let result = swept_aabb_collision(&position, &collider, &ground, check_movement);

    if position.y + collider.height <= ground.y + ground.height + GROUND_CHECK_EPSILON {
        assert!(result.is_some(), "Should detect ground contact");
    }
}

#[test]
fn test_collision_resolution_stops_at_wall() {
    let mut position = Position::new(0, 0);
    let mut velocity = Velocity::new(px(100.0), 0);
    let collider = Collider::new(px(32.0), px(32.0));
    let wall = rect(50.0, 0.0, 10.0, 100.0);

    let movement = step_displacement(&velocity, TimeStep::fixed());

    if swept_aabb_collision(&position, &collider, &wall, movement).is_some() {
        resolve_collisions(&mut position, &mut velocity, &collider, &vec![wall], TimeStep::fixed());
        assert!(position.x < wall.x, "Should stop before wall");
        assert_eq!(velocity.x, 0, "Horizontal velocity should be zero after wall collision");
    }
}

#[test]
fn test_slope_angle_calculation() {
    // Flat ground: the normal points straight up, and no slope force acts.
    let flat = GroundedState { is_grounded: true, ground_normal: Vec2::new(0, -ONE) };
    let mut velocity = Velocity::new(0, 0);
    apply_slope_physics(&mut velocity, &flat, TimeStep::fixed());
    assert_eq!(velocity, Velocity::new(0, 0), "Flat ground should have ~0 angle");

    // A slope of 45 degrees is far from flat.
    let slope_45 = GroundedState { is_grounded: true, ground_normal: Vec2::new(707, -707) };
    let mut velocity = Velocity::new(0, 0);
    apply_slope_physics(&mut velocity, &slope_45, TimeStep::fixed());
    assert_ne!(velocity, Velocity::new(0, 0), "45-degree slope should have angle ~π/4");
}

#[test]
fn test_slope_sliding_acceleration() {
    // Sliding acceleration is g * sin(θ); for 30 degrees, sin(θ) = 0.5. Over
    // one whole second along the slope direction (0.866, 0.5):
    let normal = Vec2::new(500, -866);
    let velocity = apply_slope_sliding(&Velocity::new(0, 0), normal, TimeStep::from_micros(1_000_000));
    let expected_acceleration = GRAVITY as f64 * 0.5;
    let speed = ((velocity.x as f64).powi(2) + (velocity.y as f64).powi(2)).sqrt();
    assert!((speed - expected_acceleration).abs() < 1000.0, "Sliding acceleration should be g * sin(θ)");
    assert_eq!(velocity, Velocity::new(424_340, 245_000));
}

#[test]
fn test_slope_physics_applies_sliding_force() {
    let mut velocity = Velocity::new(0, 0);

    let grounded_state = GroundedState { is_grounded: true, ground_normal: Vec2::new(500, -866) };

    apply_slope_physics(&mut velocity, &grounded_state, TimeStep::fixed());

    let velocity_magnitude = ((velocity.x as f64).powi(2) + (velocity.y as f64).powi(2)).sqrt();
    assert!(velocity_magnitude > 0.0, "Entity should slide down slope");
}

#[test]
fn test_slope_friction_opposes_motion() {
    let velocity = Velocity::new(px(100.0), 0);

    let normal = Vec2::new(50, -998);

    let initial_velocity = velocity.x;
    let velocity = apply_slope_friction(&velocity, normal, TimeStep::fixed());

    assert!(velocity.x.abs() < initial_velocity.abs(), "Friction should reduce velocity magnitude");
    // Along the slope: 100 * 0.998 = 99.8; friction 0.3 of it per second.
    assert_eq!(velocity.x, 100_000 - 498);
}

#[test]
fn test_no_slope_physics_when_airborne() {
    let mut velocity = Velocity::new(0, 0);
    let grounded_state = GroundedState { is_grounded: false, ground_normal: Vec2::new(500, -866) };

    apply_slope_physics(&mut velocity, &grounded_state, TimeStep::fixed());

    assert_eq!(velocity.x, 0, "No slope physics when airborne");
}

#[test]
fn test_no_slope_physics_on_flat_ground() {
    let mut velocity = Velocity::new(0, 0);
    let grounded_state = GroundedState { is_grounded: true, ground_normal: Vec2::new(0, -ONE) };

    apply_slope_physics(&mut velocity, &grounded_state, TimeStep::fixed());

    assert_eq!(velocity.x, 0, "No slope physics on flat ground");
}

#[test]
fn slope_threshold_is_a_tenth_of_a_radian() {
    // tan(0.1) = 0.100335: a lean just below it is flat, one just above is not.
    let below = GroundedState { is_grounded: true, ground_normal: Vec2::new(100, -1000) };
    let above = GroundedState { is_grounded: true, ground_normal: Vec2::new(101, -1000) };
    let mut velocity = Velocity::new(0, 0);
    apply_slope_physics(&mut velocity, &below, TimeStep::from_micros(1_000_000));
    assert_eq!(velocity, Velocity::new(0, 0));
    apply_slope_physics(&mut velocity, &above, TimeStep::from_micros(1_000_000));
    assert_ne!(velocity, Velocity::new(0, 0));
    // A surface that faces down is never flat ground.
    let ceiling = GroundedState { is_grounded: true, ground_normal: Vec2::new(0, ONE) };
    let mut velocity = Velocity::new(1_000, 0);
    apply_slope_physics(&mut velocity, &ceiling, TimeStep::from_micros(1_000_000));
    assert_ne!(velocity, Velocity::new(1_000, 0));
}

#[test]
fn slope_of_45_degrees_slides_with_g_sin_45() {
    let normal = Vec2::new(707, -707);
    let velocity = apply_slope_sliding(&Velocity::new(0, 0), normal, TimeStep::from_micros(1_000_000));
    // g * sin(45°) = 692.86 along (0.707, 0.707).
    assert_eq!(velocity, Velocity::new(489_852, 489_852));
    let speed = ((velocity.x as f64).powi(2) + (velocity.y as f64).powi(2)).sqrt();
    assert!((speed - GRAVITY as f64 * (0.5f64).sqrt()).abs() < 500.0);
    assert_eq!(SLOPE_FRICTION, 300);
}

#[test]
fn gravity_is_suppressed_while_clinging() {
    let mut velocity = Velocity::new(0, 0);
    let clinging = WallClimbState { is_clinging: true, wall_normal: Vec2::new(ONE, 0) };
    apply_gravity(&mut velocity, &airborne(), &clinging, TimeStep::fixed());
    assert_eq!(velocity.y, 0);
}

#[test]
fn gravity_saturates_instead_of_overflowing() {
    let mut velocity = Velocity::new(0, i32::MAX - 5);
    apply_gravity(&mut velocity, &airborne(), &free(), TimeStep::fixed());
    assert_eq!(velocity.y, i32::MAX);
}

#[test]
fn sweep_without_movement_reports_nothing() {
    let position = Position::new(0, 0);
    let collider = Collider::new(px(32.0), px(32.0));
    let geometry = rect(0.0, 0.0, 100.0, 100.0);
    assert_eq!(swept_aabb_collision(&position, &collider, &geometry, Vec2::zero()), None);
}

#[test]
fn sweep_beyond_reach_reports_nothing() {
    let position = Position::new(0, 0);
    let collider = Collider::new(px(32.0), px(32.0));
    let geometry = rect(50.0, 0.0, 10.0, 32.0);
    // 18 pixels away, 17.999 pixels of movement.
    assert_eq!(swept_aabb_collision(&position, &collider, &geometry, Vec2::new(17_999, 0)), None);
    // Exactly reached at the end of the movement.
    assert_eq!(
        swept_aabb_collision(&position, &collider, &geometry, Vec2::new(18_000, 0)),
        Some((Fraction { num: 18_000, den: 18_000 }, Vec2::new(-ONE, 0)))
    );
}

#[test]
fn sweep_diagonal_picks_the_axis_that_enters_last() {
    let position = Position::new(0, 0);
    let collider = Collider::new(px(10.0), px(10.0));
    // Ahead to the right by 10 and below by 5: the x axis enters last.
    let geometry = rect(20.0, 15.0, 10.0, 10.0);
    assert_eq!(
        swept_aabb_collision(&position, &collider, &geometry, Vec2::new(px(20.0), px(20.0))),
        Some((Fraction { num: 10_000, den: 20_000 }, Vec2::new(-ONE, 0)))
    );
    // Moving up and to the left, away from it: nothing.
    assert_eq!(swept_aabb_collision(&position, &collider, &geometry, Vec2::new(px(-20.0), px(-20.0))), None);
    // A diagonal that passes by: x enters at 1/2, but y has left at 1/4.
    let passing = rect(20.0, -60.0, 10.0, 10.0);
    assert_eq!(swept_aabb_collision(&position, &collider, &passing, Vec2::new(px(20.0), px(-200.0))), None);
    // With equal entry times the y axis gives the normal.
    let corner = rect(20.0, 20.0, 10.0, 10.0);
    assert_eq!(
        swept_aabb_collision(&position, &collider, &corner, Vec2::new(px(20.0), px(20.0))),
        Some((Fraction { num: 10_000, den: 20_000 }, Vec2::new(0, -ONE)))
    );
}

#[test]
fn sweep_to_the_left_and_down() {
    let position = Position::new(px(100.0), 0);
    let collider = Collider::new(px(10.0), px(10.0));
    let left_wall = rect(50.0, 0.0, 10.0, 10.0);
    assert_eq!(
        swept_aabb_collision(&position, &collider, &left_wall, Vec2::new(px(-80.0), 0)),
        Some((Fraction { num: 40_000, den: 80_000 }, Vec2::new(ONE, 0)))
    );
    let floor = rect(100.0, 30.0, 10.0, 10.0);
    assert_eq!(
        swept_aabb_collision(&position, &collider, &floor, Vec2::new(0, px(40.0))),
        Some((Fraction { num: 20_000, den: 40_000 }, Vec2::new(0, -ONE)))
    );
}

#[test]
fn earliest_collision_wins_and_ties_keep_the_first() {
    let position = Position::new(0, 0);
    let collider = Collider::new(px(10.0), px(10.0));
    let far = rect(40.0, 0.0, 10.0, 10.0);
    let near = rect(20.0, 0.0, 10.0, 10.0);
    let also_near = rect(20.0, 5.0, 10.0, 10.0);
    let movement = Vec2::new(px(50.0), 0);
    let hit = find_earliest_collision(&position, &collider, &vec![far, near, also_near], movement);
    assert_eq!(hit, Some((Fraction { num: 10_000, den: 50_000 }, Vec2::new(-ONE, 0))));
    assert_eq!(find_earliest_collision(&position, &collider, &Vec::new(), movement), None);
    // A contact at the very end of the movement counts too.
    let at_end = rect(60.0, 0.0, 10.0, 10.0);
    assert_eq!(
        find_earliest_collision(&position, &collider, &vec![at_end], movement),
        Some((Fraction { num: 50_000, den: 50_000 }, Vec2::new(-ONE, 0)))
    );
    assert_eq!(
        find_earliest_collision(&position, &collider, &vec![at_end, near], movement),
        Some((Fraction { num: 10_000, den: 50_000 }, Vec2::new(-ONE, 0)))
    );
    // Rectangles that the box passes by are not met.
    let beside = rect(20.0, 10.0, 10.0, 10.0);
    assert_eq!(find_earliest_collision(&position, &collider, &vec![beside], movement), None);
}

#[test]
fn resolution_stops_exactly_at_the_surface() {
    let mut position = Position::new(0, 0);
    let mut velocity = Velocity::new(px(6000.0), px(60.0));
    let collider = Collider::new(px(32.0), px(32.0));
    let thin_wall = rect(40.0, 0.0, 5.0, 100.0);
    let result = resolve_collisions(&mut position, &mut velocity, &collider, &vec![thin_wall], TimeStep::fixed());
    assert_eq!(result, CollisionResult::Collided(Vec2::new(-ONE, 0)));
    assert_eq!(position.x + collider.width, thin_wall.x);
    assert_eq!(velocity, Velocity::new(0, px(60.0)));
    // 8 of 100.002 pixels of movement: y advances by that part of 1 pixel, rounded down.
    assert_eq!(position.y, 79);
}

#[test]
fn resolution_without_contact_moves_the_whole_way() {
    let mut position = Position::new(0, 0);
    let mut velocity = Velocity::new(px(60.0), px(-120.0));
    let collider = Collider::new(px(32.0), px(32.0));
    let result = resolve_collisions(&mut position, &mut velocity, &collider, &vec![rect(500.0, 0.0, 10.0, 10.0)], TimeStep::fixed());
    assert_eq!(result, CollisionResult::NoCollision);
    assert_eq!(position, Position::new(1_000, -2_000));
    assert_eq!(velocity, Velocity::new(px(60.0), px(-120.0)));
}

#[test]
fn grounded_state_is_recomputed_from_scratch() {
    let collider = Collider::new(px(32.0), px(32.0));
    let ground = vec![rect(0.0, 32.0, 200.0, 32.0)];
    let mut state = GroundedState { is_grounded: false, ground_normal: Vec2::zero() };
    update_grounded_state(&Position::new(0, 0), &collider, &mut state, &ground);
    assert_eq!(state, GroundedState { is_grounded: true, ground_normal: Vec2::new(0, -ONE) });
    // Just within the probe.
    update_grounded_state(&Position::new(0, -1_999), &collider, &mut state, &ground);
    assert!(state.is_grounded);
    // At the probe's very end, and beyond it: airborne, with a zero normal.
    update_grounded_state(&Position::new(0, -2_000), &collider, &mut state, &ground);
    assert_eq!(state, GroundedState::default());
    update_grounded_state(&Position::new(0, px(-50.0)), &collider, &mut state, &ground);
    assert_eq!(state, GroundedState::default());
    update_grounded_state(&Position::new(0, 0), &collider, &mut state, &Vec::new());
    assert_eq!(state, GroundedState::default());
}

#[test]
fn wall_contact_is_found_on_the_probed_side() {
    let collider = Collider::new(px(32.0), px(32.0));
    let walls = vec![rect(0.0, 0.0, 32.0, 200.0), rect(100.0, 0.0, 32.0, 200.0)];
    let position = Position::new(px(35.0), px(50.0));
    let mut wall = WallClimbState::default();
    let left = PlayerIntent { move_left: true, ..PlayerIntent::default() };
    update_wall_contact(&position, &collider, &mut wall, &airborne(), &walls, &left, &Velocity::default());
    assert_eq!(wall.wall_normal, Vec2::new(ONE, 0));
    assert!(!wall.is_clinging);
    // To the right the wall is 33 pixels away: out of the probe's reach.
    let right = PlayerIntent { move_right: true, ..PlayerIntent::default() };
    update_wall_contact(&position, &collider, &mut wall, &airborne(), &walls, &right, &Velocity::default());
    assert_eq!(wall.wall_normal, Vec2::zero());
    let close = Position::new(px(65.0), px(50.0));
    update_wall_contact(&close, &collider, &mut wall, &airborne(), &walls, &right, &Velocity::default());
    assert_eq!(wall.wall_normal, Vec2::new(-ONE, 0));
    // Without steering the side of travel is probed; at rest, none.
    update_wall_contact(&position, &collider, &mut wall, &airborne(), &walls, &PlayerIntent::default(), &Velocity::new(-1, 0));
    assert_eq!(wall.wall_normal, Vec2::new(ONE, 0));
    update_wall_contact(&position, &collider, &mut wall, &airborne(), &walls, &PlayerIntent::default(), &Velocity::default());
    assert_eq!(wall.wall_normal, Vec2::zero());
}

#[test]
fn boxes_that_are_apart_on_the_still_axis_never_meet() {
    // The entity spans x 50..82 beside a wall that spans x 0..32, and moves straight up.
    let position = Position::new(px(50.0), px(100.0));
    let collider = Collider::new(px(32.0), px(32.0));
    let wall = rect(0.0, 0.0, 32.0, 100.0);
    assert_eq!(swept_aabb_collision(&position, &collider, &wall, Vec2::new(0, px(-10.0))), None);
    // Flush against the wall it slides along it.
    let flush = Position::new(px(32.0), px(150.0));
    assert_eq!(swept_aabb_collision(&flush, &collider, &wall, Vec2::new(0, px(-100.0))), None);
    // By a thousandth under the wall it meets it.
    let under = Position::new(px(31.999), px(150.0));
    assert_eq!(
        swept_aabb_collision(&under, &collider, &wall, Vec2::new(0, px(-100.0))),
        Some((Fraction { num: 50_000, den: 100_000 }, Vec2::new(0, ONE)))
    );
    // A floor flush with the entity's feet is not in the way of a walk.
    let floor = rect(100.0, 182.0, 50.0, 10.0);
    assert_eq!(swept_aabb_collision(&flush, &collider, &floor, Vec2::new(px(100.0), 0)), None);
    let step_up = rect(100.0, 181.999, 50.0, 10.0);
    assert_eq!(
        swept_aabb_collision(&flush, &collider, &step_up, Vec2::new(px(100.0), 0)),
        Some((Fraction { num: 36_000, den: 100_000 }, Vec2::new(-ONE, 0)))
    );
}

#[test]
fn entity_beside_the_ground_is_airborne() {
    let collider = Collider::new(px(32.0), px(32.0));
    let ground = vec![rect(0.0, 32.0, 200.0, 32.0)];
    let mut state = GroundedState { is_grounded: true, ground_normal: Vec2::new(0, -ONE) };
    update_grounded_state(&Position::new(px(1000.0), 0), &collider, &mut state, &ground);
    assert_eq!(state, GroundedState::default());
    // With a thousandth of its width over the edge it stands; flush with the edge it does not.
    update_grounded_state(&Position::new(px(199.999), 0), &collider, &mut state, &ground);
    assert!(state.is_grounded);
    update_grounded_state(&Position::new(px(200.0), 0), &collider, &mut state, &ground);
    assert!(!state.is_grounded);
    update_grounded_state(&Position::new(px(-32.0), 0), &collider, &mut state, &ground);
    assert!(!state.is_grounded);
}

#[test]
fn contact_at_the_end_of_the_step_stops_the_entity() {
    // Feet at 32, ground at 33, and a velocity that covers exactly that pixel.
    let mut position = Position::new(0, 0);
    let mut velocity = Velocity::new(px(7.0), px(60.0));
    let collider = Collider::new(px(32.0), px(32.0));
    let ground = vec![rect(0.0, 33.0, 200.0, 32.0)];
    assert_eq!(step_displacement(&Velocity::new(0, px(60.0)), TimeStep::fixed()), Vec2::new(0, px(1.0)));
    let mut falling = Velocity::new(0, px(60.0));
    let mut at = Position::new(0, 0);
    assert_eq!(resolve_collisions(&mut at, &mut falling, &collider, &ground, TimeStep::fixed()), CollisionResult::Collided(Vec2::new(0, -ONE)));
    assert_eq!(at, Position::new(0, px(1.0)));
    assert_eq!(falling, Velocity::new(0, 0));
    let result = resolve_collisions(&mut position, &mut velocity, &collider, &ground, TimeStep::fixed());
    assert_eq!(result, CollisionResult::Collided(Vec2::new(0, -ONE)));
    assert_eq!(position, Position::new(116, px(1.0)));
    assert_eq!(velocity, Velocity::new(px(7.0), 0));
}

#[test]
fn wall_contact_ends_a_cling_without_wall_or_on_the_ground() {
    let collider = Collider::new(px(32.0), px(32.0));
    let walls = vec![rect(0.0, 0.0, 32.0, 200.0)];
    let position = Position::new(px(32.0), px(50.0));
    let left = PlayerIntent { move_left: true, ..PlayerIntent::default() };
    let clinging = WallClimbState { is_clinging: true, wall_normal: Vec2::new(ONE, 0) };
    let mut wall = clinging;
    update_wall_contact(&position, &collider, &mut wall, &airborne(), &walls, &left, &Velocity::default());
    assert_eq!(wall, clinging);
    let standing = GroundedState { is_grounded: true, ground_normal: Vec2::new(0, -ONE) };
    update_wall_contact(&position, &collider, &mut wall, &standing, &walls, &left, &Velocity::default());
    assert_eq!(wall, WallClimbState { is_clinging: false, wall_normal: Vec2::new(ONE, 0) });
    let mut wall = clinging;
    update_wall_contact(&position, &collider, &mut wall, &airborne(), &Vec::new(), &left, &Velocity::default());
    assert_eq!(wall, WallClimbState::default());
    // A wall that ends above the entity's head is no wall for it.
    let mut wall = clinging;
    update_wall_contact(&Position::new(px(32.0), px(200.0)), &collider, &mut wall, &airborne(), &walls, &left, &Velocity::default());
    assert_eq!(wall, WallClimbState::default());
}
