//! The camera: following the player with a lag, staying inside the level,
//! and scaling the view to the window.

use crate::components::Position;
use crate::fixed::{div_toward_zero, div_trunc, lemma_product_bound, mul_wide, saturate, saturated, ONE};
use crate::physics::fixed_product;
use vstd::prelude::*;

verus! {

/// How fast the camera closes in on the player, per second, in thousandths.
pub const CAMERA_FOLLOW_SPEED: i32 = 3_000;

/// The width of the view in game units.
pub const TARGET_VIEWPORT_WIDTH: i32 = 1_280_000;

/// The height of the view in game units.
pub const TARGET_VIEWPORT_HEIGHT: i32 = 720_000;

/// A coordinate of the camera after it has moved the part `lerp_factor` of
/// the way to `target`.
pub open spec fn approached(camera: int, target: int, lerp_factor: int) -> int {
    saturated(camera + fixed_product(target - camera, lerp_factor))
}

/// A coordinate of the camera kept inside a level of the given extent: in a
/// level larger than the view the view stays within the level; the view of
/// a smaller level is centred on it.
pub open spec fn constrained(coordinate: int, extent: int, viewport: int) -> int {
    if extent > viewport {
        if coordinate < viewport / 2 {
            viewport / 2
        } else if coordinate > extent - viewport / 2 {
            extent - viewport / 2
        } else {
            coordinate
        }
    } else {
        div_toward_zero(extent, 2)
    }
}

/// The camera after one update.
pub open spec fn camera_followed(camera: Position, target: Position, lerp_factor: i32, level_size: Option<(i32, i32)>) -> Position {
    let x = approached(camera.x as int, target.x as int, lerp_factor as int);
    let y = approached(camera.y as int, target.y as int, lerp_factor as int);
    match level_size {
        Some((width, height)) => Position {
            x: constrained(x, width as int, TARGET_VIEWPORT_WIDTH as int) as i32,
            y: constrained(y, height as int, TARGET_VIEWPORT_HEIGHT as int) as i32,
        },
        None => Position { x: x as i32, y: y as i32 },
    }
}

fn approach(camera: i32, target: i32, lerp_factor: i32) -> (out: i32)
    ensures
        out == approached(camera as int, target as int, lerp_factor as int),
{
    let gap = target as i64 - camera as i64;
    proof {
        lemma_product_bound(gap as int, lerp_factor as int, 0x1_0000_0000, 0x8000_0000);
    }
    saturate(camera as i128 + div_trunc(mul_wide(gap, lerp_factor as i64), ONE as i128))
}

fn constrain(coordinate: i32, extent: i32, viewport: i32) -> (out: i32)
    requires
        viewport >= 0,
    ensures
        out == constrained(coordinate as int, extent as int, viewport as int),
{
    if extent > viewport {
        let half = viewport / 2;
        if coordinate < half {
            half
        } else if coordinate > extent - half {
            extent - half
        } else {
            coordinate
        }
    } else if extent >= 0 {
        extent / 2
    } else {
        -((-(extent as i64)) / 2) as i32
    }
}

/// Moves the camera toward the player and keeps it inside the level.
/// `lerp_factor` is the part of the remaining way that the camera covers in
/// this update, in thousandths; `level_size` is the level's width and
/// height, if a level is loaded.
pub fn camera_follow_system(camera: &mut Position, target: &Position, lerp_factor: i32, level_size: Option<(i32, i32)>)
    ensures
        *final(camera) == camera_followed(*old(camera), *target, lerp_factor, level_size),
        level_size matches Some((width, height)) ==> {
            &&& width > TARGET_VIEWPORT_WIDTH ==> TARGET_VIEWPORT_WIDTH / 2 <= final(camera).x <= width - TARGET_VIEWPORT_WIDTH / 2
            &&& height > TARGET_VIEWPORT_HEIGHT ==> TARGET_VIEWPORT_HEIGHT / 2 <= final(camera).y <= height - TARGET_VIEWPORT_HEIGHT / 2
        },
{
    let mut new_x = approach(camera.x, target.x, lerp_factor);
    let mut new_y = approach(camera.y, target.y, lerp_factor);
    if let Some((width, height)) = level_size {
        new_x = constrain(new_x, width, TARGET_VIEWPORT_WIDTH);
        new_y = constrain(new_y, height, TARGET_VIEWPORT_HEIGHT);
    }
    camera.x = new_x;
    camera.y = new_y;
}

/// The scale of the view for a window of the given size, in thousandths:
/// the smaller of the two ratios of window to view, so that the whole view
/// fits. Without a window the scale is one.
pub open spec fn projection_scale(window: Option<(i32, i32)>) -> int {
    match window {
        Some((width, height)) => {
            let scale_x = div_toward_zero(width * ONE, TARGET_VIEWPORT_WIDTH as int);
            let scale_y = div_toward_zero(height * ONE, TARGET_VIEWPORT_HEIGHT as int);
            if scale_x <= scale_y {
                scale_x
            } else {
                scale_y
            }
        },
        None => ONE as int,
    }
}

/// Computes the scale of the view for the window.
pub fn update_camera_projection(window: Option<(i32, i32)>) -> (scale: i32)
    ensures
        scale == projection_scale(window),
{
    match window {
        Some((width, height)) => {
            let scale_x = div_trunc((width as i128) * (ONE as i128), TARGET_VIEWPORT_WIDTH as i128);
            let scale_y = div_trunc((height as i128) * (ONE as i128), TARGET_VIEWPORT_HEIGHT as i128);
            if scale_x <= scale_y {
                scale_x as i32
            } else {
                scale_y as i32
            }
        },
        None => ONE,
    }
}

} // verus!
