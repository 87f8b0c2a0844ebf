//! Swinging on a rope: finding an anchor, attaching, the pendulum's angular
//! dynamics, placing the entity on the arc, and letting go.

use crate::components::{
    AbilitySet, GroundedState, PlayerIntent, Position, SwingPoint, SwingState, Vec2, Velocity,
};
use crate::enums::Ability;
use crate::fixed::{
    div_toward_zero, div_trunc, integer_sqrt, is_sqrt_floor, lemma_product_bound, mul_wide, saturate, saturated,
    sqrt_floor, TimeStep, ONE,
};
use crate::physics::{fixed_product, GRAVITY};
use vstd::prelude::*;

verus! {

/// The part of the angular velocity that is left after one step of damping,
/// in thousandths.
pub const SWING_DAMPING: i32 = 980;

/// Angular acceleration that the player's steering adds, in thousandths of
/// a radian per second squared.
pub const SWING_INPUT_TORQUE: i32 = 2_000;

/// The usual reach of a swing point.
pub const SWING_RANGE: i32 = 100_000;

/// The square of the distance between two points.
pub open spec fn distance_squared(a: Position, b: Position) -> int {
    (a.x - b.x) * (a.x - b.x) + (a.y - b.y) * (a.y - b.y)
}

/// The distance between two points, rounded down.
pub open spec fn distance(a: Position, b: Position) -> int {
    sqrt_floor(distance_squared(a, b))
}

/// Whether a swing point can be used from `player`: it is within its range,
/// and not at the player's own position, where a rope would have no length.
pub open spec fn in_reach(player: Position, point: (Position, SwingPoint)) -> bool {
    &&& 0 < distance_squared(player, point.0)
    &&& 0 <= point.1.range
    &&& distance_squared(player, point.0) <= point.1.range * point.1.range
}

/// The position of the nearest usable swing point among the first `count`;
/// of several at the same distance, the first in the list.
pub open spec fn nearest_swing_point(player: Position, points: Seq<(Position, SwingPoint)>, count: int) -> Option<Position>
    decreases count,
{
    if count <= 0 {
        None
    } else {
        let before = nearest_swing_point(player, points, count - 1);
        let candidate = points[count - 1];
        let closer = match before {
            Some(best) => distance_squared(player, candidate.0) < distance_squared(player, best),
            None => true,
        };
        if in_reach(player, candidate) && closer {
            Some(candidate.0)
        } else {
            before
        }
    }
}

/// The nearest usable swing point as an anchor with its distance.
pub open spec fn detected_swing_point(player: Position, points: Seq<(Position, SwingPoint)>) -> Option<(Vec2, i32)> {
    match nearest_swing_point(player, points, points.len() as int) {
        Some(anchor) => Some((Vec2 { x: anchor.x, y: anchor.y }, distance(player, anchor) as i32)),
        None => None,
    }
}

/// Computes the square of the distance between two points.
pub fn squared_distance(a: &Position, b: &Position) -> (d2: i128)
    ensures
        d2 as int == distance_squared(*a, *b),
        0 <= d2 <= 0x2_0000_0000_0000_0000,
{
    let dx = a.x as i64 - b.x as i64;
    let dy = a.y as i64 - b.y as i64;
    proof {
        lemma_product_bound(dx as int, dx as int, 0x1_0000_0000, 0x1_0000_0000);
        lemma_product_bound(dy as int, dy as int, 0x1_0000_0000, 0x1_0000_0000);
        assert(dx * dx >= 0) by (nonlinear_arith);
        assert(dy * dy >= 0) by (nonlinear_arith);
    }
    mul_wide(dx, dx) + mul_wide(dy, dy)
}

proof fn lemma_root_within(n: int, root: int, limit: int)
    by (nonlinear_arith)
    requires
        is_sqrt_floor(n, root),
        0 <= limit,
        n <= limit * limit,
    ensures
        root <= limit,
        n > 0 ==> root > 0,
{
    if root > limit {
        assert(root * root >= (limit + 1) * (limit + 1));
    }
}

/// The nearest usable swing point is usable, its reported distance is
/// positive, and no usable swing point is nearer.
pub proof fn lemma_nearest_is_nearest(player: Position, points: Seq<(Position, SwingPoint)>, count: int)
    requires
        0 <= count <= points.len(),
    ensures
        match nearest_swing_point(player, points, count) {
            Some(anchor) => {
                &&& exists|i: int| 0 <= i < count && (#[trigger] points[i]).0 == anchor && in_reach(player, points[i])
                &&& forall|j: int| 0 <= j < count && in_reach(player, #[trigger] points[j]) ==> distance_squared(player, anchor) <= distance_squared(player, points[j].0)
            },
            None => forall|j: int| 0 <= j < count ==> !in_reach(player, #[trigger] points[j]),
        },
    decreases count,
{
    if count > 0 {
        lemma_nearest_is_nearest(player, points, count - 1);
        let before = nearest_swing_point(player, points, count - 1);
        let candidate = points[count - 1];
        if nearest_swing_point(player, points, count) != before {
            assert(points[count - 1].0 == candidate.0 && in_reach(player, points[count - 1]));
        } else if let Some(anchor) = before {
            let i = choose|i: int| 0 <= i < count - 1 && (#[trigger] points[i]).0 == anchor && in_reach(player, points[i]);
            assert(points[i].0 == anchor && in_reach(player, points[i]));
        }
    }
}

/// Finds the nearest swing point within reach of the player.
pub fn detect_swing_points_system(player_pos: &Position, swing_points: &Vec<(Position, SwingPoint)>) -> (nearest: Option<(Vec2, i32)>)
    ensures
        nearest == detected_swing_point(*player_pos, swing_points@),
        nearest matches Some((_, distance)) ==> distance > 0,
{
    let mut closest: Option<Position> = None;
    let mut closest_squared: i128 = 0;
    let mut closest_range: i32 = 0;
    let mut i: usize = 0;
    while i < swing_points.len()
        invariant
            i <= swing_points.len(),
            closest == nearest_swing_point(*player_pos, swing_points@, i as int),
            closest matches Some(best) ==> {
                &&& closest_squared == distance_squared(*player_pos, best)
                &&& 0 < closest_squared <= closest_range * closest_range
                &&& 0 <= closest_range
            },
        decreases swing_points.len() - i,
    {
        let (swing_pos, swing_point) = swing_points[i];
        let squared = squared_distance(player_pos, &swing_pos);
        let reach = mul_wide(swing_point.range as i64, swing_point.range as i64);
        let within = 0 < squared && 0 <= swing_point.range && squared <= reach;
        let closer = match closest {
            Some(_) => squared < closest_squared,
            None => true,
        };
        if within && closer {
            closest = Some(swing_pos);
            closest_squared = squared;
            closest_range = swing_point.range;
        }
        i += 1;
    }
    match closest {
        Some(anchor) => {
            let root = integer_sqrt(closest_squared as u128);
            proof {
                lemma_root_within(closest_squared as int, root as int, closest_range as int);
            }
            Some((Vec2 { x: anchor.x, y: anchor.y }, root as i32))
        },
        None => None,
    }
}

/// The swing state after the attach rule: an entity that already swings
/// stays attached; one that does not attaches exactly if it has the swing
/// ability, is airborne, holds the jump button, and a swing point at a
/// positive distance was found.
pub open spec fn attached(swing: Option<SwingState>, abilities: AbilitySet, intent: PlayerIntent, grounded: GroundedState, nearest: Option<(Vec2, i32)>) -> Option<SwingState> {
    if swing is Some {
        swing
    } else if abilities@.contains(Ability::Swing) && !grounded.is_grounded && intent.jump_pressed {
        match nearest {
            Some((anchor, distance)) => if distance > 0 {
                Some(SwingState { anchor_point: anchor, rope_length: distance, angular_velocity: 0 })
            } else {
                None
            },
            None => None,
        }
    } else {
        None
    }
}

/// Attaches the entity to the nearest swing point when the rule allows it.
/// The rope length is the distance at the moment of attaching.
pub fn attach_to_swing_system(swing: Option<SwingState>, ability_set: &AbilitySet, intent: &PlayerIntent, grounded: &GroundedState, nearest_swing_point: Option<(Vec2, i32)>) -> (out: Option<SwingState>)
    requires
        swing matches Some(state) ==> state.wf(),
    ensures
        out == attached(swing, *ability_set, *intent, *grounded, nearest_swing_point),
        out matches Some(state) ==> state.wf(),
{
    if swing.is_some() {
        return swing;
    }
    if !ability_set.has(Ability::Swing) {
        return None;
    }
    if grounded.is_grounded {
        return None;
    }
    if let Some((swing_position, distance)) = nearest_swing_point {
        if intent.jump_pressed && distance > 0 {
            return Some(SwingState { anchor_point: swing_position, rope_length: distance, angular_velocity: 0 });
        }
    }
    None
}

/// The angular acceleration of the pendulum, in thousandths of a radian per
/// second squared: gravity over the rope length, times the sine of the
/// swing angle. The angle is that of the offset `(dx, dy)` from the anchor
/// to the entity, so its sine is `dy` over the length of the offset. An
/// entity at the anchor itself is not accelerated.
pub open spec fn pendulum_acceleration(dx: int, dy: int, rope_length: int) -> int {
    let reach = sqrt_floor(dx * dx + dy * dy);
    if reach == 0 {
        0
    } else {
        div_toward_zero(ONE * GRAVITY * dy, rope_length * reach)
    }
}

/// Computes the angular acceleration of the pendulum for the offset
/// `(dx, dy)` from the anchor to the entity.
pub fn pendulum_angular_acceleration(dx: i64, dy: i64, rope_length: i32) -> (acceleration: i128)
    requires
        rope_length > 0,
        -0x1_0000_0000 <= dx <= 0x1_0000_0000,
        -0x1_0000_0000 <= dy <= 0x1_0000_0000,
    ensures
        acceleration as int == pendulum_acceleration(dx as int, dy as int, rope_length as int),
        -0x4000_0000_0000_0000 <= acceleration <= 0x4000_0000_0000_0000,
{
    proof {
        lemma_product_bound(dx as int, dx as int, 0x1_0000_0000, 0x1_0000_0000);
        lemma_product_bound(dy as int, dy as int, 0x1_0000_0000, 0x1_0000_0000);
        assert(dx * dx >= 0) by (nonlinear_arith);
        assert(dy * dy >= 0) by (nonlinear_arith);
    }
    let squared = mul_wide(dx, dx) + mul_wide(dy, dy);
    let reach = integer_sqrt(squared as u128);
    if reach == 0 {
        return 0;
    }
    proof {
        lemma_root_within(squared as int, reach as int, 0x2_0000_0000);
        lemma_product_bound(rope_length as int, reach as int, 0x8000_0000, 0x2_0000_0000);
        assert(rope_length * reach > 0) by (nonlinear_arith)
            requires
                rope_length > 0,
                reach > 0,
        ;
        assert(ONE * GRAVITY == 980_000_000);
        lemma_product_bound(ONE * GRAVITY, dy as int, 980_000_000, 0x1_0000_0000);
    }
    let pull: i128 = mul_wide((ONE as i64) * (GRAVITY as i64), dy);
    let arm: i128 = mul_wide(rope_length as i64, reach as i64);
    div_trunc(pull, arm)
}

/// An angular velocity after one step of damping.
pub open spec fn damped(angular_velocity: int) -> int {
    fixed_product(angular_velocity, SWING_DAMPING as int)
}

/// Damping strictly reduces the magnitude of a nonzero angular velocity and
/// never reverses its direction.
pub proof fn lemma_damping_reduces(angular_velocity: int)
    ensures
        angular_velocity > 0 ==> 0 <= damped(angular_velocity) < angular_velocity,
        angular_velocity < 0 ==> angular_velocity < damped(angular_velocity) <= 0,
        angular_velocity == 0 ==> damped(angular_velocity) == 0,
{
    assert(angular_velocity * SWING_DAMPING == 980 * angular_velocity);
}

/// The angular velocity after one step: the pendulum's acceleration and the
/// player's steering act for the length of the step, then damping applies.
pub open spec fn swing_angular_velocity(position: Position, swing: SwingState, intent: PlayerIntent, dt: TimeStep) -> int {
    let dx = position.x - swing.anchor_point.x;
    let dy = position.y - swing.anchor_point.y;
    let accelerated = swing.angular_velocity + dt.scaled(pendulum_acceleration(dx, dy, swing.rope_length as int));
    let push = dt.scaled(SWING_INPUT_TORQUE as int);
    let steered = accelerated - (if intent.move_left {
        push
    } else {
        0
    }) + (if intent.move_right {
        push
    } else {
        0
    });
    saturated(damped(steered))
}

/// The angle by which the rope turns during the step, in thousandths of a
/// radian: the new angular velocity times the length of the step.
pub open spec fn swing_angle_step(position: Position, swing: SwingState, intent: PlayerIntent, dt: TimeStep) -> int {
    dt.scaled(swing_angular_velocity(position, swing, intent, dt))
}

/// Advances the pendulum by one step: updates the angular velocity and
/// returns the angle by which the rope turns. Anchor and rope length stay
/// as they are.
pub fn update_swing_physics_system(position: &Position, swing_state: &mut SwingState, intent: &PlayerIntent, dt: TimeStep) -> (angle_step: i64)
    requires
        old(swing_state).wf(),
    ensures
        final(swing_state).angular_velocity == swing_angular_velocity(*position, *old(swing_state), *intent, dt),
        final(swing_state).anchor_point == old(swing_state).anchor_point,
        final(swing_state).rope_length == old(swing_state).rope_length,
        final(swing_state).wf(),
        angle_step == swing_angle_step(*position, *old(swing_state), *intent, dt),
{
    let dx = position.x as i64 - swing_state.anchor_point.x as i64;
    let dy = position.y as i64 - swing_state.anchor_point.y as i64;
    let acceleration = pendulum_angular_acceleration(dx, dy, swing_state.rope_length);
    let mut steered: i128 = swing_state.angular_velocity as i128 + dt.scale(acceleration);
    let push = dt.scale(SWING_INPUT_TORQUE as i128);
    proof {
        lemma_product_bound(acceleration as int, dt.micros as int, 0x4000_0000_0000_0000, 0x1_0000_0000);
        lemma_product_bound(SWING_INPUT_TORQUE as int, dt.micros as int, 2000, 0x1_0000_0000);
    }
    if intent.move_left {
        steered = steered - push;
    }
    if intent.move_right {
        steered = steered + push;
    }
    proof {
        lemma_product_bound(steered as int, SWING_DAMPING as int, 0x1_0000_0000_0000_0000_0000_0000, 980);
        assert(steered * SWING_DAMPING == steered * 980);
    }
    let next = saturate(div_trunc(steered * (SWING_DAMPING as i128), ONE as i128));
    swing_state.angular_velocity = next;
    proof {
        lemma_product_bound(next as int, dt.micros as int, 0x8000_0000, 0x1_0000_0000);
    }
    dt.scale(next as i128) as i64
}

/// Where a swinging entity is, and how fast it moves, when the rope points
/// along the unit vector `direction`: at the rope's length from the anchor,
/// moving at right angles to the rope with the rope length times the
/// angular velocity.
pub open spec fn on_arc(swing: SwingState, direction: Vec2) -> (Position, Velocity) {
    let speed = fixed_product(swing.rope_length as int, swing.angular_velocity as int);
    (
        Position {
            x: saturated(swing.anchor_point.x + fixed_product(swing.rope_length as int, direction.x as int)) as i32,
            y: saturated(swing.anchor_point.y + fixed_product(swing.rope_length as int, direction.y as int)) as i32,
        },
        Velocity {
            x: saturated(-fixed_product(speed, direction.y as int)) as i32,
            y: saturated(fixed_product(speed, direction.x as int)) as i32,
        },
    )
}

/// How far the square of a direction's length may differ from the square
/// of `ONE` for the direction to count as a unit vector. A direction whose
/// two parts are rounded to the nearest thousandth lies within it.
pub const UNIT_TOLERANCE: i32 = 2_000;

/// The square of a vector's length.
pub open spec fn length_squared(v: Vec2) -> int {
    v.x * v.x + v.y * v.y
}

/// Whether a direction has length one, to within `UNIT_TOLERANCE`.
pub open spec fn is_unit(direction: Vec2) -> bool {
    ONE * ONE - UNIT_TOLERANCE <= length_squared(direction) <= ONE * ONE + UNIT_TOLERANCE
}

/// The offset from the anchor at which the entity is placed when the rope
/// points along `direction`.
pub open spec fn arc_offset(swing: SwingState, direction: Vec2) -> (int, int) {
    (fixed_product(swing.rope_length as int, direction.x as int), fixed_product(swing.rope_length as int, direction.y as int))
}

/// The square of the distance from the anchor at which the entity is placed.
pub open spec fn arc_distance_squared(swing: SwingState, direction: Vec2) -> int {
    arc_offset(swing, direction).0 * arc_offset(swing, direction).0 + arc_offset(swing, direction).1 * arc_offset(
        swing,
        direction,
    ).1
}

/// The magnitude of a number.
pub open spec fn magnitude(v: int) -> int {
    if v >= 0 {
        v
    } else {
        -v
    }
}

proof fn lemma_truncated_square(n: int, q: int)
    requires
        q == div_toward_zero(n, 1000),
    ensures
        n * n - 1998 * magnitude(n) <= 1_000_000 * (q * q) <= n * n,
{
    let r = n - 1000 * q;
    assert(n >= 0 ==> 0 <= r <= 999 && q >= 0);
    assert(n < 0 ==> -999 <= r <= 0 && q <= 0);
    assert(n * n - 1998 * magnitude(n) <= 1_000_000 * (q * q) <= n * n) by (nonlinear_arith)
        requires
            n == 1000 * q + r,
            (n >= 0 && 0 <= r <= 999 && q >= 0) || (n < 0 && -999 <= r <= 0 && q <= 0),
    {
        assert(1_000_000 * (q * q) == (n - r) * (n - r));
        assert((n - r) * (n - r) == n * n - 2 * (n * r) + r * r);
        assert(r * (1000 * q) >= 0);
        assert(n * r == r * (1000 * q) + r * r);
        assert(r * r >= 0);
        assert(n * r <= 999 * magnitude(n));
    }
}

/// A swinging entity stays on the circle around its anchor. Placed along
/// `direction`, the square of its distance from the anchor is the square of
/// the rope length times the square of the direction's length, less what
/// the rounding of the two offsets takes away. For a unit direction the
/// distance therefore equals the rope length to within one part in a
/// thousand and two thousandths of a pixel. The entity is placed at the
/// anchor plus the offset wherever that position can be stored.
pub proof fn lemma_on_arc_keeps_rope_length(swing: SwingState, direction: Vec2)
    requires
        swing.wf(),
    ensures
        ({
            let length = swing.rope_length as int;
            let spread = magnitude(direction.x as int) + magnitude(direction.y as int);
            let placed = arc_distance_squared(swing, direction);
            &&& length * length * length_squared(direction) - 1998 * length * spread <= ONE * ONE * placed
            &&& ONE * ONE * placed <= length * length * length_squared(direction)
            &&& is_unit(direction) ==> (ONE * ONE - UNIT_TOLERANCE) * (length * length) - 4_000_000 * length <= ONE * ONE * placed
            &&& is_unit(direction) ==> ONE * ONE * placed <= (ONE * ONE + UNIT_TOLERANCE) * (length * length)
        }),
        ({
            let (reach_x, reach_y) = arc_offset(swing, direction);
            let position = on_arc(swing, direction).0;
            &&& i32::MIN <= swing.anchor_point.x + reach_x <= i32::MAX ==> position.x - swing.anchor_point.x == reach_x
            &&& i32::MIN <= swing.anchor_point.y + reach_y <= i32::MAX ==> position.y - swing.anchor_point.y == reach_y
        }),
{
    let length = swing.rope_length as int;
    let (dx, dy) = (direction.x as int, direction.y as int);
    let (nx, ny) = (length * dx, length * dy);
    let (qx, qy) = arc_offset(swing, direction);
    lemma_truncated_square(nx, qx);
    lemma_truncated_square(ny, qy);
    let spread = magnitude(dx) + magnitude(dy);
    let placed = arc_distance_squared(swing, direction);
    assert(ONE * ONE == 1_000_000 && UNIT_TOLERANCE == 2000);
    assert(nx * nx + ny * ny == length * length * length_squared(direction)) by (nonlinear_arith)
        requires
            nx == length * dx,
            ny == length * dy,
            length_squared(direction) == dx * dx + dy * dy,
    ;
    assert(magnitude(nx) + magnitude(ny) == length * spread) by (nonlinear_arith)
        requires
            nx == length * dx,
            ny == length * dy,
            length > 0,
            spread == magnitude(dx) + magnitude(dy),
    ;
    assert(1_000_000 * placed == 1_000_000 * (qx * qx) + 1_000_000 * (qy * qy)) by (nonlinear_arith)
        requires
            placed == qx * qx + qy * qy,
    ;
    assert(1998 * (length * spread) == 1998 * length * spread) by (nonlinear_arith);
    if is_unit(direction) {
        assert(spread <= 2000) by (nonlinear_arith)
            requires
                dx * dx + dy * dy <= 1_002_000,
                spread == magnitude(dx) + magnitude(dy),
        {
            assert(magnitude(dx) <= 1000) by {
                if magnitude(dx) >= 1001 {
                    assert(dx * dx >= 1_002_001);
                    assert(dy * dy >= 0);
                }
            }
            assert(magnitude(dy) <= 1000) by {
                if magnitude(dy) >= 1001 {
                    assert(dy * dy >= 1_002_001);
                    assert(dx * dx >= 0);
                }
            }
        }
        assert(1998 * length * spread <= 4_000_000 * length) by (nonlinear_arith)
            requires
                0 <= spread <= 2000,
                length > 0,
        ;
        assert(length * length * length_squared(direction) >= (ONE * ONE - UNIT_TOLERANCE) * (length * length)) by (nonlinear_arith)
            requires
                length_squared(direction) >= ONE * ONE - UNIT_TOLERANCE,
        ;
        assert(length * length * length_squared(direction) <= (ONE * ONE + UNIT_TOLERANCE) * (length * length)) by (nonlinear_arith)
            requires
                length_squared(direction) <= ONE * ONE + UNIT_TOLERANCE,
        ;
    }
}

/// Places a swinging entity on the arc, with the velocity it would leave
/// the rope with. `direction` is the unit vector from the anchor along the
/// rope after the step.
pub fn place_on_arc(swing_state: &SwingState, direction: Vec2) -> (placed: (Position, Velocity))
    ensures
        placed == on_arc(*swing_state, direction),
{
    let length = swing_state.rope_length as i64;
    proof {
        lemma_product_bound(length as int, swing_state.angular_velocity as int, 0x8000_0000, 0x8000_0000);
        lemma_product_bound(length as int, direction.x as int, 0x8000_0000, 0x8000_0000);
        lemma_product_bound(length as int, direction.y as int, 0x8000_0000, 0x8000_0000);
    }
    let speed = div_trunc(mul_wide(length, swing_state.angular_velocity as i64), ONE as i128);
    let speed_narrow = speed as i64;
    let reach_x = div_trunc(mul_wide(length, direction.x as i64), ONE as i128);
    let reach_y = div_trunc(mul_wide(length, direction.y as i64), ONE as i128);
    proof {
        lemma_product_bound(speed as int, direction.x as int, 0x4000_0000_0000_0000, 0x8000_0000);
        lemma_product_bound(speed as int, direction.y as int, 0x4000_0000_0000_0000, 0x8000_0000);
    }
    let along_x = div_trunc(mul_wide(speed_narrow, direction.y as i64), ONE as i128);
    let along_y = div_trunc(mul_wide(speed_narrow, direction.x as i64), ONE as i128);
    (
        Position {
            x: saturate(swing_state.anchor_point.x as i128 + reach_x),
            y: saturate(swing_state.anchor_point.y as i128 + reach_y),
        },
        Velocity { x: saturate(-along_x), y: saturate(along_y) },
    )
}

/// The swing state after the release rule: the rope is let go when the
/// jump button was just released.
pub open spec fn released(intent: PlayerIntent, swing: Option<SwingState>) -> Option<SwingState> {
    if intent.jump_just_released {
        None
    } else {
        swing
    }
}

/// Lets go of the rope when the jump button was just released. The entity
/// keeps the velocity it had on the arc.
pub fn release_swing_system(intent: &PlayerIntent, swing: Option<SwingState>) -> (out: Option<SwingState>)
    ensures
        out == released(*intent, swing),
{
    if intent.jump_just_released {
        None
    } else {
        swing
    }
}

} // verus!
