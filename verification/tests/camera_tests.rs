use sidescrolling_adventure_game::camera::{
    camera_follow_system, update_camera_projection, CAMERA_FOLLOW_SPEED, TARGET_VIEWPORT_HEIGHT, TARGET_VIEWPORT_WIDTH,
};
use sidescrolling_adventure_game::components::Position;
use sidescrolling_adventure_game::fixed::ONE;

fn px(value: f64) -> i32 {
    (value * 1000.0).round() as i32
}

/// The part of the way that the camera covers in one frame at 60 fps.
fn lerp_factor() -> i32 {
    let speed = CAMERA_FOLLOW_SPEED as f64 / 1000.0;
    ((1.0 - (-speed / 60.0).exp()) * 1000.0).round() as i32
}

fn distance(a: Position, b: Position) -> f64 {
    (((a.x - b.x) as f64).powi(2) + ((a.y - b.y) as f64).powi(2)).sqrt()
}

#[test]
fn test_camera_follow_interpolation() {
    let player = Position::new(px(500.0), px(300.0));
    let mut camera = Position::new(0, 0);
    let initial = camera;

    for _ in 0..10 {
        camera_follow_system(&mut camera, &player, lerp_factor(), None);
    }

    assert!(distance(camera, player) < distance(initial, player), "Camera should move closer to player over time");
}

#[test]
fn test_camera_smooth_following() {
    let player = Position::new(px(100.0), px(100.0));
    let mut camera = Position::new(0, 0);

    camera_follow_system(&mut camera, &player, lerp_factor(), None);
    camera_follow_system(&mut camera, &player, lerp_factor(), None);
    let pos1 = camera;

    camera_follow_system(&mut camera, &player, lerp_factor(), None);
    let pos2 = camera;

    assert!(distance(pos1, pos2) > 0.0, "Camera should continue moving smoothly");
    assert!(distance(pos2, player) > 0.0, "Camera should not snap to the player");
}

#[test]
fn test_camera_bounds_constraint() {
    let level = Some((px(2000.0), px(1500.0)));
    let player = Position::new(px(2500.0), px(750.0));
    let mut camera = Position::new(0, 0);

    for _ in 0..20 {
        camera_follow_system(&mut camera, &player, lerp_factor(), level);
    }

    assert!(
        camera.x <= px(2000.0) - px(640.0) + px(1.0),
        "Camera X should be constrained to level bounds, got {}",
        camera.x
    );
}

#[test]
fn test_camera_bounds_constraint_left_edge() {
    let level = Some((px(2000.0), px(1500.0)));
    let player = Position::new(px(-500.0), px(750.0));
    let mut camera = Position::new(0, 0);

    for _ in 0..20 {
        camera_follow_system(&mut camera, &player, lerp_factor(), level);
    }

    assert!(camera.x >= px(640.0) - px(1.0), "Camera X should be constrained to level left bound, got {}", camera.x);
    assert_eq!(camera.x, px(640.0));
}

#[test]
fn test_camera_without_level_data() {
    let player = Position::new(px(2000.0), px(1000.0));
    let mut camera = Position::new(0, 0);

    for _ in 0..10 {
        camera_follow_system(&mut camera, &player, lerp_factor(), None);
    }

    assert!(camera.x > 0, "Camera should follow player even without level data");
}

#[test]
fn test_camera_small_level_centering() {
    let level = Some((px(800.0), px(600.0)));
    let player = Position::new(px(400.0), px(300.0));
    let mut camera = Position::new(0, 0);

    for _ in 0..20 {
        camera_follow_system(&mut camera, &player, lerp_factor(), level);
    }

    assert!((camera.x - px(400.0)).abs() < px(1.0), "Camera X should be centered on small level, got {}", camera.x);
    assert!((camera.y - px(300.0)).abs() < px(1.0), "Camera Y should be centered on small level, got {}", camera.y);
}

#[test]
fn test_viewport_scaling_consistency() {
    let scale = update_camera_projection(None);

    assert!(scale > 0, "Projection scale should be positive");
    assert!((scale - ONE).abs() < 10, "Projection scale should be 1.0 with default dimensions, got {}", scale);
}

#[test]
fn test_viewport_maintains_aspect_ratio() {
    let scale = update_camera_projection(Some((TARGET_VIEWPORT_WIDTH, TARGET_VIEWPORT_HEIGHT)));

    assert!(scale > 0, "Projection scale should be positive");
    assert_eq!(scale, ONE);
}

#[test]
fn camera_covers_the_given_part_of_the_way() {
    let mut camera = Position::new(px(100.0), px(-100.0));
    camera_follow_system(&mut camera, &Position::new(px(200.0), px(-300.0)), 250, None);
    assert_eq!(camera, Position::new(px(125.0), px(-150.0)));
    camera_follow_system(&mut camera, &Position::new(px(200.0), px(-300.0)), ONE, None);
    assert_eq!(camera, Position::new(px(200.0), px(-300.0)));
    camera_follow_system(&mut camera, &Position::new(0, 0), 0, None);
    assert_eq!(camera, Position::new(px(200.0), px(-300.0)));
}

#[test]
fn camera_stays_inside_a_large_level_and_centres_on_a_small_one() {
    let large = Some((px(2000.0), px(1500.0)));
    let mut camera = Position::new(px(1000.0), px(750.0));
    camera_follow_system(&mut camera, &Position::new(px(5000.0), px(5000.0)), ONE, large);
    assert_eq!(camera, Position::new(px(1360.0), px(1140.0)));
    camera_follow_system(&mut camera, &Position::new(px(-5000.0), px(-5000.0)), ONE, large);
    assert_eq!(camera, Position::new(px(640.0), px(360.0)));
    camera_follow_system(&mut camera, &Position::new(px(700.0), px(400.0)), ONE, large);
    assert_eq!(camera, Position::new(px(700.0), px(400.0)));
    // A level exactly as large as the view counts as small.
    camera_follow_system(&mut camera, &Position::new(px(700.0), px(400.0)), ONE, Some((px(1280.0), px(720.0))));
    assert_eq!(camera, Position::new(px(640.0), px(360.0)));
}

#[test]
fn projection_scale_is_the_smaller_ratio() {
    assert_eq!(update_camera_projection(Some((px(640.0), px(720.0)))), 500);
    assert_eq!(update_camera_projection(Some((px(2560.0), px(1080.0)))), 1_500);
    assert_eq!(update_camera_projection(Some((px(1920.0), px(1080.0)))), 1_500);
    assert_eq!(update_camera_projection(Some((0, 0))), 0);
}
