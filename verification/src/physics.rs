//! Gravity, swept collision against the level, contact classification and
//! slope forces.

use crate::components::{
    Collider, GroundedState, LevelGeometry, PlayerIntent, Position, Vec2, Velocity, WallClimbState,
};
use crate::fixed::{
    div_toward_zero, div_trunc, lemma_fraction_lt_le, lemma_product_bound,
    mul_wide, saturate, saturated, Fraction, TimeStep, ONE,
};
use vstd::arithmetic::div_mod::lemma_div_multiples_vanish;
use vstd::prelude::*;

verus! {

/// Downward acceleration, in thousandths of a pixel per second squared.
pub const GRAVITY: i32 = 980_000;

/// How far below an entity the ground probe reaches.
pub const GROUND_CHECK_EPSILON: i32 = 2_000;

/// How far to the side of an entity the wall probe reaches.
pub const WALL_CHECK_DISTANCE: i32 = 5_000;

/// Friction coefficient on slopes, in thousandths.
pub const SLOPE_FRICTION: i32 = 300;

/// Below this angle from straight up, in thousandths of a radian, a surface
/// counts as flat.
pub const MIN_SLOPE_ANGLE: i32 = 100;

/// The outcome of moving an entity through the level for one step.
#[derive(Clone, Copy, Debug, PartialEq, Eq, Structural)]
pub enum CollisionResult {
    NoCollision,
    /// The entity was stopped by a surface with this normal.
    Collided(Vec2),
}

impl Collider {
    pub open spec fn left(self, pos: Position) -> int {
        pos.x + self.offset_x
    }

    pub open spec fn right(self, pos: Position) -> int {
        pos.x + self.offset_x + self.width
    }

    pub open spec fn top(self, pos: Position) -> int {
        pos.y + self.offset_y
    }

    pub open spec fn bottom(self, pos: Position) -> int {
        pos.y + self.offset_y + self.height
    }
}

impl LevelGeometry {
    pub open spec fn left(self) -> int {
        self.x as int
    }

    pub open spec fn right(self) -> int {
        self.x + self.width
    }

    pub open spec fn top(self) -> int {
        self.y as int
    }

    pub open spec fn bottom(self) -> int {
        self.y + self.height
    }
}

/// The distance a box spanning `lo..hi` must travel along one axis, in the
/// direction of `movement`, before it starts to overlap `geo_lo..geo_hi`.
pub open spec fn axis_entry(lo: int, hi: int, geo_lo: int, geo_hi: int, movement: int) -> int {
    if movement > 0 {
        geo_lo - hi
    } else {
        lo - geo_hi
    }
}

/// The distance the box must travel, in the direction of `movement`, before
/// it stops overlapping `geo_lo..geo_hi`.
pub open spec fn axis_exit(lo: int, hi: int, geo_lo: int, geo_hi: int, movement: int) -> int {
    if movement > 0 {
        geo_hi - lo
    } else {
        hi - geo_lo
    }
}

/// The distance covered along one axis during the step.
pub open spec fn axis_span(movement: int) -> int {
    if movement > 0 {
        movement
    } else {
        -movement
    }
}

/// The normal of a surface met while moving horizontally: it opposes the motion.
pub open spec fn normal_against_x(movement: int) -> Vec2 {
    if movement > 0 {
        Vec2 { x: (-ONE) as i32, y: 0 }
    } else {
        Vec2 { x: ONE, y: 0 }
    }
}

/// The normal of a surface met while moving vertically: it opposes the motion.
pub open spec fn normal_against_y(movement: int) -> Vec2 {
    if movement > 0 {
        Vec2 { x: 0, y: (-ONE) as i32 }
    } else {
        Vec2 { x: 0, y: ONE }
    }
}

/// The contact on the axis that enters last: it counts if that axis has not
/// left again, the box is not already past the entry, and the entry lies
/// within the step.
pub open spec fn axis_hit(entry: int, exit: int, span: int, normal: Vec2) -> Option<(Fraction, Vec2)> {
    if entry <= exit && 0 <= entry <= span {
        Some((Fraction { num: entry as u32, den: span as u32 }, normal))
    } else {
        None
    }
}

/// Whether the ranges `lo..hi` and `geo_lo..geo_hi` share more than a
/// boundary point. Ranges that only touch do not overlap in this sense.
pub open spec fn overlaps_strictly(lo: int, hi: int, geo_lo: int, geo_hi: int) -> bool {
    lo < geo_hi && geo_lo < hi
}

/// The first contact between the entity's box, swept along `movement`, and
/// one rectangle: the fraction of the movement at which they touch and the
/// normal of the surface that is met.
///
/// Entry and exit times on an axis are `entry / span` and `exit / span`.
/// Along an axis without movement the box neither enters nor exits: it can
/// only meet a rectangle that it overlaps on that axis, and a rectangle that
/// it merely touches there (the floor it slides on, the wall it falls along)
/// is not in its way. Times on different axes are compared by
/// cross-multiplication, which is exact.
pub open spec fn sweep(pos: Position, collider: Collider, geometry: LevelGeometry, movement: Vec2) -> Option<(Fraction, Vec2)> {
    let entry_x = axis_entry(collider.left(pos), collider.right(pos), geometry.left(), geometry.right(), movement.x as int);
    let exit_x = axis_exit(collider.left(pos), collider.right(pos), geometry.left(), geometry.right(), movement.x as int);
    let span_x = axis_span(movement.x as int);
    let entry_y = axis_entry(collider.top(pos), collider.bottom(pos), geometry.top(), geometry.bottom(), movement.y as int);
    let exit_y = axis_exit(collider.top(pos), collider.bottom(pos), geometry.top(), geometry.bottom(), movement.y as int);
    let span_y = axis_span(movement.y as int);
    if movement.x == 0 && movement.y == 0 {
        None
    } else if movement.y == 0 {
        if overlaps_strictly(collider.top(pos), collider.bottom(pos), geometry.top(), geometry.bottom()) {
            axis_hit(entry_x, exit_x, span_x, normal_against_x(movement.x as int))
        } else {
            None
        }
    } else if movement.x == 0 {
        if overlaps_strictly(collider.left(pos), collider.right(pos), geometry.left(), geometry.right()) {
            axis_hit(entry_y, exit_y, span_y, normal_against_y(movement.y as int))
        } else {
            None
        }
    } else if entry_x * span_y > entry_y * span_x {
        if entry_x * span_y <= exit_y * span_x {
            axis_hit(entry_x, exit_x, span_x, normal_against_x(movement.x as int))
        } else {
            None
        }
    } else {
        if entry_y * span_x <= exit_x * span_y {
            axis_hit(entry_y, exit_y, span_y, normal_against_y(movement.y as int))
        } else {
            None
        }
    }
}

fn contact_on_axis(entry: i64, exit: i64, span: i64, normal: Vec2) -> (hit: Option<(Fraction, Vec2)>)
    requires
        0 < span <= 0x8000_0000,
    ensures
        hit == axis_hit(entry as int, exit as int, span as int, normal),
{
    if entry <= exit && 0 <= entry && entry <= span {
        Some((Fraction { num: entry as u32, den: span as u32 }, normal))
    } else {
        None
    }
}

/// Swept test of the entity's box against one rectangle.
pub fn swept_aabb_collision(pos: &Position, collider: &Collider, geometry: &LevelGeometry, movement: Vec2) -> (hit: Option<(Fraction, Vec2)>)
    ensures
        hit == sweep(*pos, *collider, *geometry, movement),
{
    let entity_left: i64 = pos.x as i64 + collider.offset_x as i64;
    let entity_right: i64 = entity_left + collider.width as i64;
    let entity_top: i64 = pos.y as i64 + collider.offset_y as i64;
    let entity_bottom: i64 = entity_top + collider.height as i64;
    let geo_left: i64 = geometry.x as i64;
    let geo_right: i64 = geometry.x as i64 + geometry.width as i64;
    let geo_top: i64 = geometry.y as i64;
    let geo_bottom: i64 = geometry.y as i64 + geometry.height as i64;

    let entry_x: i64;
    let exit_x: i64;
    let span_x: i64;
    let normal_x: Vec2;
    if movement.x > 0 {
        entry_x = geo_left - entity_right;
        exit_x = geo_right - entity_left;
        span_x = movement.x as i64;
        normal_x = Vec2 { x: -ONE, y: 0 };
    } else {
        entry_x = entity_left - geo_right;
        exit_x = entity_right - geo_left;
        span_x = -(movement.x as i64);
        normal_x = Vec2 { x: ONE, y: 0 };
    }
    let entry_y: i64;
    let exit_y: i64;
    let span_y: i64;
    let normal_y: Vec2;
    if movement.y > 0 {
        entry_y = geo_top - entity_bottom;
        exit_y = geo_bottom - entity_top;
        span_y = movement.y as i64;
        normal_y = Vec2 { x: 0, y: -ONE };
    } else {
        entry_y = entity_top - geo_bottom;
        exit_y = entity_bottom - geo_top;
        span_y = -(movement.y as i64);
        normal_y = Vec2 { x: 0, y: ONE };
    }

    if movement.x == 0 && movement.y == 0 {
        None
    } else if movement.y == 0 {
        if entity_top < geo_bottom && geo_top < entity_bottom {
            contact_on_axis(entry_x, exit_x, span_x, normal_x)
        } else {
            None
        }
    } else if movement.x == 0 {
        if entity_left < geo_right && geo_left < entity_right {
            contact_on_axis(entry_y, exit_y, span_y, normal_y)
        } else {
            None
        }
    } else if mul_wide(entry_x, span_y) > mul_wide(entry_y, span_x) {
        if mul_wide(entry_x, span_y) <= mul_wide(exit_y, span_x) {
            contact_on_axis(entry_x, exit_x, span_x, normal_x)
        } else {
            None
        }
    } else {
        if mul_wide(entry_y, span_x) <= mul_wide(exit_x, span_y) {
            contact_on_axis(entry_y, exit_y, span_y, normal_y)
        } else {
            None
        }
    }
}

/// The movement that `velocity` produces over one step.
pub open spec fn displacement(velocity: Velocity, dt: TimeStep) -> Vec2 {
    Vec2 {
        x: saturated(dt.scaled(velocity.x as int)) as i32,
        y: saturated(dt.scaled(velocity.y as int)) as i32,
    }
}

/// Computes the movement that `velocity` produces over one step.
pub fn step_displacement(velocity: &Velocity, dt: TimeStep) -> (movement: Vec2)
    ensures
        movement == displacement(*velocity, dt),
{
    Vec2 { x: saturate(dt.scale(velocity.x as i128)), y: saturate(dt.scale(velocity.y as i128)) }
}

/// The earliest contact among the first `count` rectangles: the one with the
/// smallest time of impact; of several with that same time, the first in the
/// list.
pub open spec fn earliest_hit(pos: Position, collider: Collider, geometry: Seq<LevelGeometry>, movement: Vec2, count: int) -> Option<(Fraction, Vec2)>
    decreases count,
{
    if count <= 0 {
        None
    } else {
        let before = earliest_hit(pos, collider, geometry, movement, count - 1);
        match sweep(pos, collider, geometry[count - 1], movement) {
            Some((time, normal)) => match before {
                Some((limit, _)) => if time.lt(limit) {
                    Some((time, normal))
                } else {
                    before
                },
                None => Some((time, normal)),
            },
            None => before,
        }
    }
}

/// Sweeps the entity against every rectangle and returns the earliest contact.
pub fn find_earliest_collision(pos: &Position, collider: &Collider, geometry: &Vec<LevelGeometry>, movement: Vec2) -> (hit: Option<(Fraction, Vec2)>)
    ensures
        hit == earliest_hit(*pos, *collider, geometry@, movement, geometry@.len() as int),
        hit matches Some((time, _)) ==> time.wf(),
        hit is None <==> forall|j: int| 0 <= j < geometry@.len() ==> sweep(*pos, *collider, #[trigger] geometry@[j], movement) is None,
{
    let mut earliest: Option<(Fraction, Vec2)> = None;
    let mut i: usize = 0;
    while i < geometry.len()
        invariant
            i <= geometry.len(),
            earliest == earliest_hit(*pos, *collider, geometry@, movement, i as int),
        decreases geometry.len() - i,
    {
        if let Some((time, normal)) = swept_aabb_collision(pos, collider, &geometry[i], movement) {
            let sooner = match earliest {
                Some((limit, _)) => time.less_than(&limit),
                None => true,
            };
            if sooner {
                earliest = Some((time, normal));
            }
        }
        i += 1;
    }
    proof {
        lemma_earliest_hit_is_earliest(*pos, *collider, geometry@, movement, geometry@.len() as int);
    }
    earliest
}

/// `velocity` without its component along `normal`, a unit vector.
pub open spec fn projected(velocity: Velocity, normal: Vec2) -> Velocity {
    let dot = div_toward_zero(velocity.x * normal.x + velocity.y * normal.y, ONE as int);
    Velocity {
        x: saturated(velocity.x - div_toward_zero(dot * normal.x, ONE as int)) as i32,
        y: saturated(velocity.y - div_toward_zero(dot * normal.y, ONE as int)) as i32,
    }
}

/// Removes from `velocity` its component along `normal`, so that what is
/// left runs along the surface.
pub fn project_velocity(velocity: &Velocity, normal: Vec2) -> (out: Velocity)
    ensures
        out == projected(*velocity, normal),
{
    let along_x = mul_wide(velocity.x as i64, normal.x as i64);
    let along_y = mul_wide(velocity.y as i64, normal.y as i64);
    proof {
        lemma_product_bound(velocity.x as int, normal.x as int, 0x8000_0000, 0x8000_0000);
        lemma_product_bound(velocity.y as int, normal.y as int, 0x8000_0000, 0x8000_0000);
    }
    let dot = div_trunc(along_x + along_y, ONE as i128);
    let dot_narrow = dot as i64;
    proof {
        lemma_product_bound(dot as int, normal.x as int, 0x8000_0000_0000_0000, 0x8000_0000);
        lemma_product_bound(dot as int, normal.y as int, 0x8000_0000_0000_0000, 0x8000_0000);
    }
    let back_x = div_trunc(mul_wide(dot_narrow, normal.x as i64), ONE as i128);
    let back_y = div_trunc(mul_wide(dot_narrow, normal.y as i64), ONE as i128);
    Velocity { x: saturate(velocity.x as i128 - back_x), y: saturate(velocity.y as i128 - back_y) }
}

/// `pos` moved by the part `part` of `movement`.
pub open spec fn advanced(pos: Position, movement: Vec2, part: Fraction) -> Position {
    Position {
        x: saturated(pos.x + part.part_of(movement.x as int)) as i32,
        y: saturated(pos.y + part.part_of(movement.y as int)) as i32,
    }
}

fn advance(pos: &Position, movement: Vec2, part: Fraction) -> (out: Position)
    requires
        part.den > 0,
    ensures
        out == advanced(*pos, movement, part),
{
    let dx = part.apply(movement.x as i64);
    let dy = part.apply(movement.y as i64);
    proof {
        lemma_product_bound(movement.x as int, part.num as int, 0x8000_0000, 0x1_0000_0000);
        lemma_product_bound(movement.y as int, part.num as int, 0x8000_0000, 0x1_0000_0000);
    }
    Position { x: saturate(pos.x as i128 + dx), y: saturate(pos.y as i128 + dy) }
}

/// Where the entity is after the step: moved up to the earliest contact, or
/// by the whole displacement when nothing is in the way.
pub open spec fn resolved_position(pos: Position, velocity: Velocity, collider: Collider, geometry: Seq<LevelGeometry>, dt: TimeStep) -> Position {
    let movement = displacement(velocity, dt);
    match earliest_hit(pos, collider, geometry, movement, geometry.len() as int) {
        Some((time, _)) => advanced(pos, movement, time),
        None => advanced(pos, movement, Fraction::spec_one()),
    }
}

/// The entity's velocity after the step: projected onto the surface of the
/// earliest contact, or unchanged when nothing is in the way.
pub open spec fn resolved_velocity(pos: Position, velocity: Velocity, collider: Collider, geometry: Seq<LevelGeometry>, dt: TimeStep) -> Velocity {
    let movement = displacement(velocity, dt);
    match earliest_hit(pos, collider, geometry, movement, geometry.len() as int) {
        Some((_, normal)) => projected(velocity, normal),
        None => velocity,
    }
}

/// Whether the step ends at a surface, and that surface's normal.
pub open spec fn collision_outcome(pos: Position, velocity: Velocity, collider: Collider, geometry: Seq<LevelGeometry>, dt: TimeStep) -> CollisionResult {
    let movement = displacement(velocity, dt);
    match earliest_hit(pos, collider, geometry, movement, geometry.len() as int) {
        Some((_, normal)) => CollisionResult::Collided(normal),
        None => CollisionResult::NoCollision,
    }
}

/// Moves the entity for one step through the level: up to the earliest
/// contact, where its velocity is projected onto the surface, or by its
/// whole displacement.
pub fn resolve_collisions(position: &mut Position, velocity: &mut Velocity, collider: &Collider, geometry: &Vec<LevelGeometry>, dt: TimeStep) -> (result: CollisionResult)
    ensures
        *final(position) == resolved_position(*old(position), *old(velocity), *collider, geometry@, dt),
        *final(velocity) == resolved_velocity(*old(position), *old(velocity), *collider, geometry@, dt),
        result == collision_outcome(*old(position), *old(velocity), *collider, geometry@, dt),
        result matches CollisionResult::Collided(normal) ==> {
            &&& normal.x == 0 ==> final(velocity).y == 0 && final(velocity).x == old(velocity).x
            &&& normal.y == 0 ==> final(velocity).x == 0 && final(velocity).y == old(velocity).y
            &&& normal.x == 0 || normal.y == 0
        },
        result is NoCollision ==> *final(velocity) == *old(velocity),
        result is NoCollision <==> forall|j: int| 0 <= j < geometry@.len() ==> sweep(*old(position), *collider, #[trigger] geometry@[j], displacement(*old(velocity), dt)) is None,
{
    let movement = step_displacement(velocity, dt);
    match find_earliest_collision(position, collider, geometry, movement) {
        Some((time, normal)) => {
            proof {
                lemma_earliest_hit_is_earliest(*position, *collider, geometry@, movement, geometry@.len() as int);
                let i = choose|i: int| 0 <= i < geometry@.len() && sweep(*position, *collider, #[trigger] geometry@[i], movement) == Some((time, normal));
                lemma_sweep_shape(*position, *collider, geometry@[i], movement);
                lemma_projection_removes_normal_component(*velocity, normal);
            }
            *position = advance(position, movement, time);
            *velocity = project_velocity(velocity, normal);
            CollisionResult::Collided(normal)
        },
        None => {
            *position = advance(position, movement, Fraction::one());
            CollisionResult::NoCollision
        },
    }
}

/// `velocity` after gravity has acted for one step. Gravity acts on an
/// entity that is neither grounded nor clinging to a wall.
pub open spec fn gravity_applied(velocity: Velocity, grounded: GroundedState, wall: WallClimbState, dt: TimeStep) -> Velocity {
    if grounded.is_grounded || wall.is_clinging {
        velocity
    } else {
        Velocity { x: velocity.x, y: saturated(velocity.y + dt.scaled(GRAVITY as int)) as i32 }
    }
}

/// Adds gravity to the vertical velocity unless the entity is grounded or
/// clings to a wall.
pub fn apply_gravity(velocity: &mut Velocity, grounded: &GroundedState, wall_state: &WallClimbState, dt: TimeStep)
    ensures
        *final(velocity) == gravity_applied(*old(velocity), *grounded, *wall_state, dt),
{
    if !grounded.is_grounded && !wall_state.is_clinging {
        let gain = dt.scale(GRAVITY as i128);
        velocity.y = saturate(velocity.y as i128 + gain);
    }
}

/// Whether the range `lo..hi`, moved by the part `a / b` of `movement`,
/// overlaps the range `geo_lo..geo_hi` (touching counts).
pub open spec fn overlaps_at(lo: int, hi: int, geo_lo: int, geo_hi: int, movement: int, a: int, b: int) -> bool {
    lo * b + movement * a <= geo_hi * b && geo_lo * b <= hi * b + movement * a
}

/// Whether, along one axis, the range `geo_lo..geo_hi` lies wholly ahead of
/// the range `lo..hi` in the direction of `movement` (touching counts).
pub open spec fn lies_ahead(lo: int, hi: int, geo_lo: int, geo_hi: int, movement: int) -> bool {
    axis_entry(lo, hi, geo_lo, geo_hi, movement) >= 0
}

/// A reported contact lies within the step, its normal is one of the four
/// axis directions, and that normal opposes the movement.
pub proof fn lemma_sweep_shape(pos: Position, collider: Collider, geometry: LevelGeometry, movement: Vec2)
    ensures
        sweep(pos, collider, geometry, movement) matches Some((time, normal)) ==> {
            &&& time.wf()
            &&& (normal.x == 0 && (normal.y == ONE || normal.y == -ONE)) || (normal.y == 0 && (normal.x == ONE
                || normal.x == -ONE))
            &&& normal.x * movement.x + normal.y * movement.y < 0
            &&& normal.x != 0 ==> movement.x != 0
            &&& normal.y != 0 ==> movement.y != 0
        },
{
    assert(ONE * movement.x == 1000 * movement.x);
    assert((-ONE) * movement.x == -1000 * movement.x);
    assert(ONE * movement.y == 1000 * movement.y);
    assert((-ONE) * movement.y == -1000 * movement.y);
}

proof fn lemma_times_in_order(entry: int, entry_span: int, exit: int, exit_span: int, a: int, b: int)
    by (nonlinear_arith)
    requires
        b > 0,
        entry_span > 0,
        exit_span > 0,
        entry * b <= a * entry_span,
        a * exit_span <= exit * b,
    ensures
        entry * exit_span <= exit * entry_span,
{
    assert((entry * b) * exit_span <= (a * entry_span) * exit_span);
    assert((a * exit_span) * entry_span <= (exit * b) * entry_span);
    assert((entry * exit_span) * b <= (exit * entry_span) * b);
}

proof fn lemma_axis_overlap(lo: int, hi: int, geo_lo: int, geo_hi: int, movement: int, a: int, b: int)
    by (nonlinear_arith)
    requires
        movement != 0,
        overlaps_at(lo, hi, geo_lo, geo_hi, movement, a, b),
    ensures
        axis_entry(lo, hi, geo_lo, geo_hi, movement) * b <= a * axis_span(movement),
        a * axis_span(movement) <= axis_exit(lo, hi, geo_lo, geo_hi, movement) * b,
{
}

/// Whether the entity's box, moved by the part `a / b` of `movement`,
/// meets the rectangle: on an axis along which it moves the two overlap or
/// touch, and on an axis along which it does not move they overlap.
pub open spec fn meets_at(pos: Position, collider: Collider, geometry: LevelGeometry, movement: Vec2, a: int, b: int) -> bool {
    &&& if movement.x != 0 {
        overlaps_at(collider.left(pos), collider.right(pos), geometry.left(), geometry.right(), movement.x as int, a, b)
    } else {
        overlaps_strictly(collider.left(pos), collider.right(pos), geometry.left(), geometry.right())
    }
    &&& if movement.y != 0 {
        overlaps_at(collider.top(pos), collider.bottom(pos), geometry.top(), geometry.bottom(), movement.y as int, a, b)
    } else {
        overlaps_strictly(collider.top(pos), collider.bottom(pos), geometry.top(), geometry.bottom())
    }
}

/// Whether the rectangle lies ahead of the box at the start of the
/// movement, along one of the axes along which the box moves.
pub open spec fn starts_apart(pos: Position, collider: Collider, geometry: LevelGeometry, movement: Vec2) -> bool {
    ||| movement.x != 0 && lies_ahead(collider.left(pos), collider.right(pos), geometry.left(), geometry.right(), movement.x as int)
    ||| movement.y != 0 && lies_ahead(collider.top(pos), collider.bottom(pos), geometry.top(), geometry.bottom(), movement.y as int)
}

/// No tunnelling. Suppose that somewhere along the movement, at the part
/// `a / b` of it, the entity's box meets the rectangle, and that the
/// rectangle lay ahead of the box at the start. Then the sweep reports a
/// contact, however far the movement goes and however thin the rectangle
/// is, and that contact comes no later than `a / b`.
pub proof fn lemma_no_tunneling(pos: Position, collider: Collider, geometry: LevelGeometry, movement: Vec2, a: int, b: int)
    requires
        0 <= a <= b,
        0 < b,
        meets_at(pos, collider, geometry, movement, a, b),
        starts_apart(pos, collider, geometry, movement),
    ensures
        sweep(pos, collider, geometry, movement) matches Some((time, _)) && time.num * b <= a * time.den,
{
    let entry_x = axis_entry(collider.left(pos), collider.right(pos), geometry.left(), geometry.right(), movement.x as int);
    let exit_x = axis_exit(collider.left(pos), collider.right(pos), geometry.left(), geometry.right(), movement.x as int);
    let span_x = axis_span(movement.x as int);
    let entry_y = axis_entry(collider.top(pos), collider.bottom(pos), geometry.top(), geometry.bottom(), movement.y as int);
    let exit_y = axis_exit(collider.top(pos), collider.bottom(pos), geometry.top(), geometry.bottom(), movement.y as int);
    let span_y = axis_span(movement.y as int);
    if movement.x != 0 {
        lemma_axis_overlap(collider.left(pos), collider.right(pos), geometry.left(), geometry.right(), movement.x as int, a, b);
        lemma_times_in_order(entry_x, span_x, exit_x, span_x, a, b);
        lemma_within_step(entry_x, exit_x, span_x, a, b);
    }
    if movement.y != 0 {
        lemma_axis_overlap(collider.top(pos), collider.bottom(pos), geometry.top(), geometry.bottom(), movement.y as int, a, b);
        lemma_times_in_order(entry_y, span_y, exit_y, span_y, a, b);
        lemma_within_step(entry_y, exit_y, span_y, a, b);
    }
    if movement.x != 0 && movement.y != 0 {
        lemma_times_in_order(entry_x, span_x, exit_y, span_y, a, b);
        lemma_times_in_order(entry_y, span_y, exit_x, span_x, a, b);
        if entry_x * span_y > entry_y * span_x {
            lemma_later_entry_not_negative(entry_x, span_x, entry_y, span_y);
        } else {
            lemma_later_entry_not_negative(entry_y, span_y, entry_x, span_x);
        }
    }
}

proof fn lemma_within_step(entry: int, exit: int, span: int, a: int, b: int)
    by (nonlinear_arith)
    requires
        0 <= a <= b,
        0 < b,
        0 < span,
        entry * b <= a * span,
        entry * span <= exit * span,
    ensures
        entry <= span,
        entry <= exit,
{
    assert(a * span <= b * span);
    assert(entry * b <= span * b);
}

proof fn lemma_later_entry_not_negative(later: int, later_span: int, earlier: int, earlier_span: int)
    by (nonlinear_arith)
    requires
        0 < later_span,
        0 < earlier_span,
        later * earlier_span >= earlier * later_span,
        later >= 0 || earlier >= 0,
    ensures
        later >= 0,
{
    if later < 0 {
        assert(later * earlier_span < 0);
        assert(earlier * later_span >= 0);
    }
}

proof fn lemma_overlap_from_times(lo: int, hi: int, geo_lo: int, geo_hi: int, movement: int, a: int, b: int)
    by (nonlinear_arith)
    requires
        movement != 0,
        axis_entry(lo, hi, geo_lo, geo_hi, movement) * b <= a * axis_span(movement),
        a * axis_span(movement) <= axis_exit(lo, hi, geo_lo, geo_hi, movement) * b,
    ensures
        overlaps_at(lo, hi, geo_lo, geo_hi, movement, a, b),
{
}

proof fn lemma_same_axis_times(entry: int, exit: int, span: int)
    by (nonlinear_arith)
    requires
        entry <= exit,
        0 < span,
    ensures
        entry * span <= entry * span,
        entry * span <= exit * span,
{
}

/// A reported contact is a real touch: moved by the reported part of the
/// movement, the entity's box meets the rectangle on both axes.
pub proof fn lemma_contact_is_real(pos: Position, collider: Collider, geometry: LevelGeometry, movement: Vec2)
    ensures
        sweep(pos, collider, geometry, movement) matches Some((time, _)) ==> {
            &&& meets_at(pos, collider, geometry, movement, time.num as int, time.den as int)
            &&& overlaps_at(collider.left(pos), collider.right(pos), geometry.left(), geometry.right(), movement.x as int, time.num as int, time.den as int)
            &&& overlaps_at(collider.top(pos), collider.bottom(pos), geometry.top(), geometry.bottom(), movement.y as int, time.num as int, time.den as int)
        },
{
    if let Some((time, normal)) = sweep(pos, collider, geometry, movement) {
        lemma_sweep_shape(pos, collider, geometry, movement);
        let (left, right) = (collider.left(pos), collider.right(pos));
        let (top, bottom) = (collider.top(pos), collider.bottom(pos));
        let entry_x = axis_entry(left, right, geometry.left(), geometry.right(), movement.x as int);
        let exit_x = axis_exit(left, right, geometry.left(), geometry.right(), movement.x as int);
        let span_x = axis_span(movement.x as int);
        let entry_y = axis_entry(top, bottom, geometry.top(), geometry.bottom(), movement.y as int);
        let exit_y = axis_exit(top, bottom, geometry.top(), geometry.bottom(), movement.y as int);
        let span_y = axis_span(movement.y as int);
        let (a, b) = (time.num as int, time.den as int);
        if movement.x != 0 && (movement.y == 0 || entry_x * span_y > entry_y * span_x) {
            // The x axis leads.
            assert(a == entry_x && b == span_x);
            lemma_same_axis_times(entry_x, exit_x, span_x);
            lemma_overlap_from_times(left, right, geometry.left(), geometry.right(), movement.x as int, a, b);
            if movement.y != 0 {
                lemma_overlap_from_times(top, bottom, geometry.top(), geometry.bottom(), movement.y as int, a, b);
            } else {
                lemma_static_overlap(top, bottom, geometry.top(), geometry.bottom(), a, b);
            }
        } else {
            // The y axis leads.
            assert(a == entry_y && b == span_y);
            lemma_same_axis_times(entry_y, exit_y, span_y);
            lemma_overlap_from_times(top, bottom, geometry.top(), geometry.bottom(), movement.y as int, a, b);
            if movement.x != 0 {
                lemma_overlap_from_times(left, right, geometry.left(), geometry.right(), movement.x as int, a, b);
            } else {
                lemma_static_overlap(left, right, geometry.left(), geometry.right(), a, b);
            }
        }
    }
}

proof fn lemma_static_overlap(lo: int, hi: int, geo_lo: int, geo_hi: int, a: int, b: int)
    by (nonlinear_arith)
    requires
        overlaps_strictly(lo, hi, geo_lo, geo_hi),
        0 < b,
    ensures
        overlaps_at(lo, hi, geo_lo, geo_hi, 0, a, b),
{
}

/// A reported contact is the first: at every earlier part `a / b` of the
/// movement the entity's box and the rectangle are apart on the axis of the
/// contact's normal, so they do not meet.
pub proof fn lemma_no_contact_before(pos: Position, collider: Collider, geometry: LevelGeometry, movement: Vec2, a: int, b: int)
    requires
        0 <= a,
        0 < b,
        sweep(pos, collider, geometry, movement) matches Some((time, _)) && a * time.den < time.num * b,
    ensures
        !meets_at(pos, collider, geometry, movement, a, b),
{
    let (time, normal) = sweep(pos, collider, geometry, movement)->Some_0;
    lemma_sweep_shape(pos, collider, geometry, movement);
    if normal.x != 0 {
        if overlaps_at(collider.left(pos), collider.right(pos), geometry.left(), geometry.right(), movement.x as int, a, b) {
            lemma_axis_overlap(collider.left(pos), collider.right(pos), geometry.left(), geometry.right(), movement.x as int, a, b);
        }
    } else {
        if overlaps_at(collider.top(pos), collider.bottom(pos), geometry.top(), geometry.bottom(), movement.y as int, a, b) {
            lemma_axis_overlap(collider.top(pos), collider.bottom(pos), geometry.top(), geometry.bottom(), movement.y as int, a, b);
        }
    }
}

/// The earliest contact is a contact with one of the rectangles, and no
/// rectangle is met sooner. Without one, no rectangle is met at all.
pub proof fn lemma_earliest_hit_is_earliest(pos: Position, collider: Collider, geometry: Seq<LevelGeometry>, movement: Vec2, count: int)
    requires
        0 <= count <= geometry.len(),
    ensures
        match earliest_hit(pos, collider, geometry, movement, count) {
            Some((time, normal)) => {
                &&& time.wf()
                &&& exists|i: int| 0 <= i < count && sweep(pos, collider, #[trigger] geometry[i], movement) == Some((time, normal))
                &&& forall|j: int| 0 <= j < count ==> (sweep(pos, collider, #[trigger] geometry[j], movement) matches Some((other, _)) ==> time.le(other))
            },
            None => forall|j: int| 0 <= j < count ==> sweep(pos, collider, #[trigger] geometry[j], movement) is None,
        },
    decreases count,
{
    if count > 0 {
        lemma_earliest_hit_is_earliest(pos, collider, geometry, movement, count - 1);
        let before = earliest_hit(pos, collider, geometry, movement, count - 1);
        let last = sweep(pos, collider, geometry[count - 1], movement);
        lemma_sweep_shape(pos, collider, geometry[count - 1], movement);
        if let Some((time, normal)) = last {
            if let Some((limit, _)) = before {
                if time.lt(limit) {
                    assert forall|j: int| 0 <= j < count implies (sweep(pos, collider, #[trigger] geometry[j], movement) matches Some((other, _)) ==> time.le(other)) by {
                        if j < count - 1 {
                            if let Some((other, _)) = sweep(pos, collider, geometry[j], movement) {
                                lemma_sweep_shape(pos, collider, geometry[j], movement);
                                lemma_fraction_lt_le(time, limit, other);
                            }
                        }
                    }
                }
            }
        }
    }
}

/// No tunnelling through the level. Suppose that somewhere along its
/// movement, at the part `a / b` of it, the entity's box would meet the
/// rectangle with index `i`, which lay ahead of the box at the start. Then
/// the step ends at a surface, and the entity moves no further than to that
/// point.
pub proof fn lemma_resolution_stops_at_obstacles(pos: Position, velocity: Velocity, collider: Collider, geometry: Seq<LevelGeometry>, dt: TimeStep, i: int, a: int, b: int)
    requires
        0 <= i < geometry.len(),
        0 <= a <= b,
        0 < b,
        meets_at(pos, collider, geometry[i], displacement(velocity, dt), a, b),
        starts_apart(pos, collider, geometry[i], displacement(velocity, dt)),
    ensures
        collision_outcome(pos, velocity, collider, geometry, dt) is Collided,
        earliest_hit(pos, collider, geometry, displacement(velocity, dt), geometry.len() as int) matches Some((time, _)) && time.num * b <= a * time.den,
{
    let movement = displacement(velocity, dt);
    lemma_no_tunneling(pos, collider, geometry[i], movement, a, b);
    lemma_sweep_shape(pos, collider, geometry[i], movement);
    lemma_earliest_hit_is_earliest(pos, collider, geometry, movement, geometry.len() as int);
    let met = sweep(pos, collider, geometry[i], movement)->Some_0.0;
    let first = earliest_hit(pos, collider, geometry, movement, geometry.len() as int)->Some_0.0;
    assert(first.le(met));
    lemma_no_later_than(first.num as int, first.den as int, met.num as int, met.den as int, a, b);
}

proof fn lemma_no_later_than(n: int, d: int, m: int, e: int, a: int, b: int)
    by (nonlinear_arith)
    requires
        0 < d,
        0 < e,
        0 < b,
        n * e <= m * d,
        m * b <= a * e,
    ensures
        n * b <= a * d,
{
    assert((n * e) * b <= (m * d) * b);
    assert((m * b) * d <= (a * e) * d);
    assert((n * b) * e <= (a * d) * e);
}

/// At the reported time of impact the box touches the rectangle: moved by
/// that part of the movement, the side of the box that faces the surface
/// lies exactly on it.
pub proof fn lemma_contact_is_exact(pos: Position, collider: Collider, geometry: LevelGeometry, movement: Vec2)
    ensures
        sweep(pos, collider, geometry, movement) matches Some((time, normal)) ==> {
            &&& normal.x < 0 ==> collider.right(pos) + time.part_of(movement.x as int) == geometry.left()
            &&& normal.x > 0 ==> collider.left(pos) + time.part_of(movement.x as int) == geometry.right()
            &&& normal.y < 0 ==> collider.bottom(pos) + time.part_of(movement.y as int) == geometry.top()
            &&& normal.y > 0 ==> collider.top(pos) + time.part_of(movement.y as int) == geometry.bottom()
        },
{
    if let Some((time, normal)) = sweep(pos, collider, geometry, movement) {
        lemma_sweep_shape(pos, collider, geometry, movement);
        let entry = time.num as int;
        let span = time.den as int;
        if normal.x != 0 {
            lemma_part_on_leading_axis(movement.x as int, entry, span);
        } else {
            lemma_part_on_leading_axis(movement.y as int, entry, span);
        }
    }
}

proof fn lemma_part_on_leading_axis(movement: int, entry: int, span: int)
    requires
        0 <= entry,
        0 < span,
        movement == span || movement == -span,
    ensures
        movement > 0 ==> div_toward_zero(movement * entry, span) == entry,
        movement < 0 ==> div_toward_zero(movement * entry, span) == -entry,
{
    lemma_div_multiples_vanish(entry, span);
    assert(span * entry >= 0) by (nonlinear_arith)
        requires
            0 <= entry,
            0 < span,
    ;
    if movement < 0 {
        assert(-(movement * entry) == span * entry) by (nonlinear_arith)
            requires
                movement == -span,
        ;
    }
}

/// Projecting onto an axis-aligned surface removes exactly the velocity
/// along the normal and keeps the velocity along the surface.
pub proof fn lemma_projection_removes_normal_component(velocity: Velocity, normal: Vec2)
    requires
        (normal.x == 0 && (normal.y == ONE || normal.y == -ONE)) || (normal.y == 0 && (normal.x == ONE || normal.x
            == -ONE)),
    ensures
        normal.x == 0 ==> projected(velocity, normal) == (Velocity { x: velocity.x, y: 0 }),
        normal.y == 0 ==> projected(velocity, normal) == (Velocity { x: 0, y: velocity.y }),
{
    let (vx, vy) = (velocity.x as int, velocity.y as int);
    let (nx, ny) = (normal.x as int, normal.y as int);
    assert(ONE == 1000);
    let dot = div_toward_zero(vx * nx + vy * ny, 1000);
    if nx == 0 {
        assert(vx * nx == 0 && dot * nx == 0) by (nonlinear_arith)
            requires
                nx == 0,
        ;
        assert(vy * ny == ny * vy) by (nonlinear_arith);
        assert(ny == 1000 ==> dot == vy);
        assert(ny == -1000 ==> dot == -vy);
        assert(dot * ny == 1000 * vy) by (nonlinear_arith)
            requires
                (ny == 1000 && dot == vy) || (ny == -1000 && dot == -vy),
        ;
    } else {
        assert(vy * ny == 0 && dot * ny == 0) by (nonlinear_arith)
            requires
                ny == 0,
        ;
        assert(vx * nx == nx * vx) by (nonlinear_arith);
        assert(nx == 1000 ==> dot == vx);
        assert(nx == -1000 ==> dot == -vx);
        assert(dot * nx == 1000 * vx) by (nonlinear_arith)
            requires
                (nx == 1000 && dot == vx) || (nx == -1000 && dot == -vx),
        ;
    }
}


/// The velocity of an entity in free fall after `steps` steps of gravity alone.
pub open spec fn after_airborne_steps(velocity: Velocity, dt: TimeStep, steps: nat) -> Velocity
    decreases steps,
{
    if steps == 0 {
        velocity
    } else {
        gravity_applied(
            after_airborne_steps(velocity, dt, (steps - 1) as nat),
            GroundedState { is_grounded: false, ground_normal: Vec2::spec_zero() },
            WallClimbState { is_clinging: false, wall_normal: Vec2::spec_zero() },
            dt,
        )
    }
}

/// Gravity accumulates: after `steps` steps of free fall the vertical
/// velocity has grown by `steps` times the gain of one step, up to the
/// largest velocity that can be stored, and the horizontal velocity has not
/// changed. The gain of one step is the acceleration times the step's length
/// in seconds, rounded down.
pub proof fn lemma_gravity_accumulates(velocity: Velocity, dt: TimeStep, steps: nat)
    ensures
        after_airborne_steps(velocity, dt, steps).y == saturated(velocity.y + steps * dt.scaled(GRAVITY as int)),
        after_airborne_steps(velocity, dt, steps).x == velocity.x,
        GRAVITY * dt.micros - 1_000_000 < dt.scaled(GRAVITY as int) * 1_000_000 <= GRAVITY * dt.micros,
    decreases steps,
{
    let gain = dt.scaled(GRAVITY as int);
    assert(GRAVITY * dt.micros >= 0) by (nonlinear_arith);
    assert(gain >= 0);
    if steps > 0 {
        assert((steps - 1) * gain == steps * gain - gain) by (nonlinear_arith);
        assert((steps - 1) * gain >= 0) by (nonlinear_arith)
            requires
                gain >= 0,
                steps >= 1,
        ;
        lemma_gravity_accumulates(velocity, dt, (steps - 1) as nat);
    } else {
        assert(steps * gain == 0) by (nonlinear_arith)
            requires
                steps == 0,
        ;
    }
}

/// The downward movement that probes for ground under an entity.
pub open spec fn ground_probe() -> Vec2 {
    Vec2 { x: 0, y: GROUND_CHECK_EPSILON }
}

/// Whether a rectangle carries the entity: the ground probe meets it before
/// its end, on a surface whose normal points up.
pub open spec fn supports(pos: Position, collider: Collider, geometry: LevelGeometry) -> bool {
    match sweep(pos, collider, geometry, ground_probe()) {
        Some((time, normal)) => time.lt(Fraction::spec_one()) && 2 * normal.y < -ONE,
        None => false,
    }
}

/// The grounded state of an entity at `pos`: grounded, with the normal
/// pointing up, exactly if some rectangle of the level carries it.
pub open spec fn grounded_on(pos: Position, collider: Collider, geometry: Seq<LevelGeometry>) -> GroundedState {
    if exists|i: int| 0 <= i < geometry.len() && supports(pos, collider, #[trigger] geometry[i]) {
        GroundedState { is_grounded: true, ground_normal: Vec2 { x: 0, y: (-ONE) as i32 } }
    } else {
        GroundedState { is_grounded: false, ground_normal: Vec2::spec_zero() }
    }
}

/// Recomputes the grounded state from scratch with a short downward probe.
pub fn update_grounded_state(position: &Position, collider: &Collider, grounded_state: &mut GroundedState, geometry: &Vec<LevelGeometry>)
    ensures
        *final(grounded_state) == grounded_on(*position, *collider, geometry@),
        final(grounded_state).wf(),
{
    let check_movement = Vec2 { x: 0, y: GROUND_CHECK_EPSILON };
    let mut is_on_ground = false;
    let mut ground_normal = Vec2 { x: 0, y: 0 };
    let mut i: usize = 0;
    while i < geometry.len()
        invariant_except_break
            i <= geometry.len(),
            !is_on_ground,
            ground_normal == Vec2::spec_zero(),
            forall|j: int| 0 <= j < i ==> !supports(*position, *collider, #[trigger] geometry@[j]),
        invariant
            check_movement == ground_probe(),
        ensures
            is_on_ground ==> i < geometry.len() && supports(*position, *collider, geometry@[i as int]) && ground_normal == (Vec2 { x: 0, y: (-ONE) as i32 }),
            !is_on_ground ==> ground_normal == Vec2::spec_zero() && forall|j: int| 0 <= j < geometry.len() ==> !supports(*position, *collider, #[trigger] geometry@[j]),
        decreases geometry.len() - i,
    {
        if let Some((time, normal)) = swept_aabb_collision(position, collider, &geometry[i], check_movement) {
            if time.less_than(&Fraction::one()) && normal.y < -(ONE / 2) {
                is_on_ground = true;
                ground_normal = normal;
                break;
            }
        }
        i += 1;
    }
    grounded_state.is_grounded = is_on_ground;
    grounded_state.ground_normal = ground_normal;
}

/// The tangent of `MIN_SLOPE_ANGLE`, in millionths.
pub const MIN_SLOPE_TANGENT: i64 = 100_335;

/// Whether a surface with this normal counts as flat: the normal points up
/// and leans to the side by less than `MIN_SLOPE_ANGLE`, which is decided by
/// the tangent of the lean, `|x| / -y`.
pub open spec fn is_flat(normal: Vec2) -> bool {
    &&& normal.y < 0
    &&& normal.x >= 0 ==> normal.x * 1_000_000 < MIN_SLOPE_TANGENT * (-normal.y)
    &&& normal.x < 0 ==> (-normal.x) * 1_000_000 < MIN_SLOPE_TANGENT * (-normal.y)
}

/// The product of two fixed-point values, rounded toward zero.
pub open spec fn fixed_product(a: int, b: int) -> int {
    div_toward_zero(a * b, ONE as int)
}

/// `velocity` after sliding has acted for one step on a slope with the unit
/// normal `normal`. The sine of the slope angle is `normal.x`, and the
/// direction along the slope is `(-normal.y, normal.x)`: sliding adds the
/// acceleration `GRAVITY * normal.x` along that direction.
pub open spec fn slid(velocity: Velocity, normal: Vec2, dt: TimeStep) -> Velocity {
    let sliding = fixed_product(GRAVITY as int, normal.x as int);
    Velocity {
        x: saturated(velocity.x + dt.scaled(fixed_product(sliding, -normal.y))) as i32,
        y: saturated(velocity.y + dt.scaled(fixed_product(sliding, normal.x as int))) as i32,
    }
}

/// `velocity` after friction has acted for one step on a slope with the
/// unit normal `normal`: friction takes away the part `SLOPE_FRICTION` per
/// second of the velocity along the slope.
pub open spec fn rubbed(velocity: Velocity, normal: Vec2, dt: TimeStep) -> Velocity {
    let along = div_toward_zero(velocity.x * (-normal.y) + velocity.y * normal.x, ONE as int);
    let friction = fixed_product(-along, SLOPE_FRICTION as int);
    Velocity {
        x: saturated(velocity.x + dt.scaled(fixed_product(friction, -normal.y))) as i32,
        y: saturated(velocity.y + dt.scaled(fixed_product(friction, normal.x as int))) as i32,
    }
}

/// `velocity` after one step of slope forces on the ground the entity rests
/// on: sliding, then friction. In the air and on flat ground there are none.
pub open spec fn slope_adjusted(velocity: Velocity, grounded: GroundedState, dt: TimeStep) -> Velocity {
    if !grounded.is_grounded || is_flat(grounded.ground_normal) {
        velocity
    } else {
        rubbed(slid(velocity, grounded.ground_normal, dt), grounded.ground_normal, dt)
    }
}

fn normal_is_flat(normal: Vec2) -> (flat: bool)
    ensures
        flat == is_flat(normal),
{
    let lean: i64 = if normal.x >= 0 {
        normal.x as i64
    } else {
        -(normal.x as i64)
    };
    normal.y < 0 && lean * 1_000_000 < MIN_SLOPE_TANGENT * (-(normal.y as i64))
}

fn multiply_fixed(a: i64, b: i64) -> (product: i128)
    ensures
        product as int == fixed_product(a as int, b as int),
{
    div_trunc(mul_wide(a, b), ONE as i128)
}

/// Adds one step of sliding down a slope to the velocity.
pub fn apply_slope_sliding(velocity: &Velocity, normal: Vec2, dt: TimeStep) -> (out: Velocity)
    ensures
        out == slid(*velocity, normal, dt),
{
    let dir_x: i64 = -(normal.y as i64);
    let dir_y: i64 = normal.x as i64;
    proof {
        lemma_product_bound(GRAVITY as int, normal.x as int, 980_000, 0x8000_0000);
    }
    let sliding = multiply_fixed(GRAVITY as i64, normal.x as i64);
    let sliding_narrow = sliding as i64;
    proof {
        lemma_product_bound(sliding as int, dir_x as int, 0x400_0000_0000, 0x8000_0000);
        lemma_product_bound(sliding as int, dir_y as int, 0x400_0000_0000, 0x8000_0000);
    }
    Velocity {
        x: saturate(velocity.x as i128 + dt.scale(multiply_fixed(sliding_narrow, dir_x))),
        y: saturate(velocity.y as i128 + dt.scale(multiply_fixed(sliding_narrow, dir_y))),
    }
}

/// Takes one step of slope friction from the velocity.
pub fn apply_slope_friction(velocity: &Velocity, normal: Vec2, dt: TimeStep) -> (out: Velocity)
    ensures
        out == rubbed(*velocity, normal, dt),
{
    let dir_x: i64 = -(normal.y as i64);
    let dir_y: i64 = normal.x as i64;
    proof {
        lemma_product_bound(velocity.x as int, dir_x as int, 0x8000_0000, 0x8000_0000);
        lemma_product_bound(velocity.y as int, dir_y as int, 0x8000_0000, 0x8000_0000);
    }
    let along = div_trunc(mul_wide(velocity.x as i64, dir_x) + mul_wide(velocity.y as i64, dir_y), ONE as i128);
    let against = -(along as i64);
    proof {
        lemma_product_bound(-along as int, SLOPE_FRICTION as int, 0x40_0000_0000_0000, 300);
    }
    let friction = multiply_fixed(against, SLOPE_FRICTION as i64);
    let friction_narrow = friction as i64;
    proof {
        lemma_product_bound(friction as int, dir_x as int, 0x40_0000_0000_0000, 0x8000_0000);
        lemma_product_bound(friction as int, dir_y as int, 0x40_0000_0000_0000, 0x8000_0000);
    }
    Velocity {
        x: saturate(velocity.x as i128 + dt.scale(multiply_fixed(friction_narrow, dir_x))),
        y: saturate(velocity.y as i128 + dt.scale(multiply_fixed(friction_narrow, dir_y))),
    }
}

/// Applies sliding and friction to an entity grounded on a slope. On flat
/// ground, and in the air, the velocity is left as it is.
pub fn apply_slope_physics(velocity: &mut Velocity, grounded_state: &GroundedState, dt: TimeStep)
    ensures
        *final(velocity) == slope_adjusted(*old(velocity), *grounded_state, dt),
        !grounded_state.is_grounded || is_flat(grounded_state.ground_normal) ==> *final(velocity) == *old(velocity),
{
    if !grounded_state.is_grounded {
        return ;
    }
    let normal = grounded_state.ground_normal;
    if normal_is_flat(normal) {
        return ;
    }
    let sliding = apply_slope_sliding(velocity, normal, dt);
    *velocity = apply_slope_friction(&sliding, normal, dt);
}

/// The side on which to look for a wall: the side the player steers to, or
/// else the side the entity moves to; 1 is right, -1 is left, 0 is neither.
pub open spec fn probe_direction(intent: PlayerIntent, velocity: Velocity) -> int {
    if intent.move_right && !intent.move_left {
        1
    } else if intent.move_left && !intent.move_right {
        -1
    } else if velocity.x > 0 {
        1
    } else if velocity.x < 0 {
        -1
    } else {
        0
    }
}

/// The sideways movement that probes for a wall.
pub open spec fn wall_probe(direction: int) -> Vec2 {
    Vec2 { x: (direction * WALL_CHECK_DISTANCE) as i32, y: 0 }
}

/// Whether the wall probe meets this rectangle before its end, on a surface
/// whose normal is mostly horizontal.
pub open spec fn is_wall(pos: Position, collider: Collider, geometry: LevelGeometry, probe: Vec2) -> bool {
    match sweep(pos, collider, geometry, probe) {
        Some((time, normal)) => time.lt(Fraction::spec_one()) && (2 * normal.x > ONE || 2 * normal.x < -ONE),
        None => false,
    }
}

/// The normal of the wall next to the entity on the probed side: it points
/// away from the wall. Zero if no side is probed or no wall is found there.
pub open spec fn wall_normal_at(pos: Position, collider: Collider, geometry: Seq<LevelGeometry>, intent: PlayerIntent, velocity: Velocity) -> Vec2 {
    let direction = probe_direction(intent, velocity);
    if direction != 0 && exists|i: int| 0 <= i < geometry.len() && is_wall(pos, collider, #[trigger] geometry[i], wall_probe(direction)) {
        Vec2 { x: (-direction * ONE) as i32, y: 0 }
    } else {
        Vec2::spec_zero()
    }
}

/// Recomputes which wall, if any, the entity is next to, with a short
/// sideways probe. An entity that clings goes on clinging only if a wall is
/// found and the entity is airborne.
pub fn update_wall_contact(position: &Position, collider: &Collider, wall_state: &mut WallClimbState, grounded: &GroundedState, geometry: &Vec<LevelGeometry>, intent: &PlayerIntent, velocity: &Velocity)
    ensures
        final(wall_state).wall_normal == wall_normal_at(*position, *collider, geometry@, *intent, *velocity),
        final(wall_state).is_clinging == (old(wall_state).is_clinging && !grounded.is_grounded && !final(wall_state).wall_normal.is_zero()),
{
    let direction: i32 = if intent.move_right && !intent.move_left {
        1
    } else if intent.move_left && !intent.move_right {
        -1
    } else if velocity.x > 0 {
        1
    } else if velocity.x < 0 {
        -1
    } else {
        0
    };
    let mut wall_normal = Vec2 { x: 0, y: 0 };
    if direction != 0 {
        let check_movement = Vec2 { x: direction * WALL_CHECK_DISTANCE, y: 0 };
        let mut i: usize = 0;
        while i < geometry.len()
            invariant_except_break
                i <= geometry.len(),
                wall_normal == Vec2::spec_zero(),
                forall|j: int| 0 <= j < i ==> !is_wall(*position, *collider, #[trigger] geometry@[j], check_movement),
            invariant
                direction == 1 || direction == -1,
                check_movement == wall_probe(direction as int),
            ensures
                wall_normal == Vec2::spec_zero() ==> forall|j: int| 0 <= j < geometry.len() ==> !is_wall(*position, *collider, #[trigger] geometry@[j], check_movement),
                wall_normal != Vec2::spec_zero() ==> i < geometry.len() && is_wall(*position, *collider, geometry@[i as int], check_movement) && wall_normal == (Vec2 { x: (-direction * ONE) as i32, y: 0 }),
            decreases geometry.len() - i,
        {
            if let Some((time, normal)) = swept_aabb_collision(position, collider, &geometry[i], check_movement) {
                if time.less_than(&Fraction::one()) && (normal.x > ONE / 2 || normal.x < -(ONE / 2)) {
                    wall_normal = normal;
                    break;
                }
            }
            i += 1;
        }
    }
    wall_state.wall_normal = wall_normal;
    if grounded.is_grounded || (wall_normal.x == 0 && wall_normal.y == 0) {
        wall_state.is_clinging = false;
    }
}

/// A rectangle carries the entity exactly if the two overlap in width and
/// the rectangle's top lies at or below the entity's feet, by less than the
/// ground probe's reach. (The last clause holds of every box and rectangle
/// without a negative height.)
pub proof fn lemma_supports(pos: Position, collider: Collider, geometry: LevelGeometry)
    ensures
        supports(pos, collider, geometry) <==> {
            &&& overlaps_strictly(collider.left(pos), collider.right(pos), geometry.left(), geometry.right())
            &&& 0 <= geometry.top() - collider.bottom(pos) < GROUND_CHECK_EPSILON
            &&& collider.height + geometry.height >= 0
        },
{
    lemma_sweep_shape(pos, collider, geometry, ground_probe());
    assert(ONE == 1000 && GROUND_CHECK_EPSILON == 2000);
}

/// A rectangle is a wall for a probe to the right exactly if the two
/// overlap in height and the rectangle's left side lies at or beyond the
/// entity's right side, by less than the wall probe's reach; and likewise,
/// mirrored, for a probe to the left. (The last clause holds of every box
/// and rectangle without a negative width.)
pub proof fn lemma_is_wall(pos: Position, collider: Collider, geometry: LevelGeometry, direction: int)
    requires
        direction == 1 || direction == -1,
    ensures
        is_wall(pos, collider, geometry, wall_probe(direction)) <==> {
            &&& overlaps_strictly(collider.top(pos), collider.bottom(pos), geometry.top(), geometry.bottom())
            &&& direction == 1 ==> 0 <= geometry.left() - collider.right(pos) < WALL_CHECK_DISTANCE
            &&& direction == -1 ==> 0 <= collider.left(pos) - geometry.right() < WALL_CHECK_DISTANCE
            &&& collider.width + geometry.width >= 0
        },
{
    assert(ONE == 1000 && WALL_CHECK_DISTANCE == 5000);
    assert(direction * WALL_CHECK_DISTANCE == if direction == 1 {
        5000int
    } else {
        -5000int
    }) by (nonlinear_arith)
        requires
            direction == 1 || direction == -1,
            WALL_CHECK_DISTANCE == 5000,
    ;
    let probe = wall_probe(direction);
    assert(probe.y == 0);
    assert(direction == 1 ==> probe.x == 5000);
    assert(direction == -1 ==> probe.x == -5000);
    lemma_sweep_shape(pos, collider, geometry, probe);
    if let Some((time, normal)) = sweep(pos, collider, geometry, probe) {
        assert(time.den == 5000);
        assert(time.lt(Fraction::spec_one()) <==> time.num < 5000) by {
            assert(time.num * 1 == time.num && 1 * time.den == time.den);
        }
    }
}

} // verus!
