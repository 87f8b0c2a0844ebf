//! The movement controller: running, jumping, wall cling and wall jump.

use crate::components::{
    AbilitySet, Collider, GroundedState, LevelGeometry, PlayerIntent, Position, Vec2, Velocity, WallClimbState,
};
use crate::enums::Ability;
use crate::fixed::{div_toward_zero, div_trunc, mul_wide, saturate, saturated, Fraction, ONE};
use crate::physics::{
    fixed_product, lemma_sweep_shape, overlaps_strictly, sweep, swept_aabb_collision, WALL_CHECK_DISTANCE,
};
use vstd::prelude::*;

verus! {

/// Running speed on the ground.
pub const MOVE_SPEED: i32 = 200_000;

/// Vertical velocity of a jump (negative is up).
pub const BASE_JUMP_VELOCITY: i32 = -400_000;

/// Vertical velocity of a jump with the high-jump ability.
pub const HIGH_JUMP_VELOCITY: i32 = -600_000;

/// Climbing speed along a wall.
pub const WALL_CLIMB_SPEED: i32 = 150_000;

/// Horizontal speed of a wall jump, away from the wall.
pub const WALL_JUMP_HORIZONTAL_VELOCITY: i32 = 250_000;

/// Vertical velocity of a wall jump (negative is up).
pub const WALL_JUMP_VERTICAL_VELOCITY: i32 = -450_000;

/// How far above a clinging entity the wall must continue.
pub const WALL_TOP_CHECK_DISTANCE: i32 = 10_000;

/// `velocity` after the player's steering: on the ground the horizontal
/// velocity is the running speed in the steered direction, or zero when both
/// or neither direction is held; in the air it is left as it is.
pub open spec fn steered(intent: PlayerIntent, velocity: Velocity, grounded: GroundedState) -> Velocity {
    if !grounded.is_grounded {
        velocity
    } else if intent.move_right && !intent.move_left {
        Velocity { x: MOVE_SPEED, y: velocity.y }
    } else if intent.move_left && !intent.move_right {
        Velocity { x: (-MOVE_SPEED) as i32, y: velocity.y }
    } else {
        Velocity { x: 0, y: velocity.y }
    }
}

/// Sets the horizontal velocity of a grounded entity from the intent.
pub fn apply_horizontal_movement_system(intent: &PlayerIntent, velocity: &mut Velocity, grounded: &GroundedState)
    ensures
        *final(velocity) == steered(*intent, *old(velocity), *grounded),
{
    if grounded.is_grounded {
        if intent.move_right && !intent.move_left {
            velocity.x = MOVE_SPEED;
        } else if intent.move_left && !intent.move_right {
            velocity.x = -MOVE_SPEED;
        } else {
            velocity.x = 0;
        }
    }
}

/// Whether this step performs a wall jump.
pub open spec fn wall_jumps(intent: PlayerIntent, wall: WallClimbState) -> bool {
    wall.is_clinging && intent.jump_pressed
}

/// The vertical velocity that a jump from the ground starts with.
pub open spec fn jump_velocity(abilities: AbilitySet) -> int {
    if abilities@.contains(Ability::HighJump) {
        HIGH_JUMP_VELOCITY as int
    } else {
        BASE_JUMP_VELOCITY as int
    }
}

/// `velocity` after the jump rules. A wall jump pushes away from the wall
/// and up, and nothing else happens in that step. Otherwise a held jump on
/// the ground sets the jump velocity, and a jump released during the ascent
/// halves the vertical velocity (rounding toward zero).
pub open spec fn jumped(intent: PlayerIntent, velocity: Velocity, grounded: GroundedState, abilities: AbilitySet, wall: WallClimbState) -> Velocity {
    if wall_jumps(intent, wall) {
        Velocity {
            x: saturated(fixed_product(wall.wall_normal.x as int, WALL_JUMP_HORIZONTAL_VELOCITY as int)) as i32,
            y: WALL_JUMP_VERTICAL_VELOCITY,
        }
    } else {
        let started = if grounded.is_grounded && intent.jump_pressed {
            jump_velocity(abilities)
        } else {
            velocity.y as int
        };
        let cut = if intent.jump_just_released && started < 0 {
            div_toward_zero(started, 2)
        } else {
            started
        };
        Velocity { x: velocity.x, y: cut as i32 }
    }
}

/// Applies the jump rules: wall jump, jump from the ground, and the cut of a
/// jump whose button was released during the ascent.
pub fn apply_jump_system(intent: &PlayerIntent, velocity: &mut Velocity, grounded: &GroundedState, ability_set: &AbilitySet, wall_state: &mut WallClimbState)
    ensures
        *final(velocity) == jumped(*intent, *old(velocity), *grounded, *ability_set, *old(wall_state)),
        final(wall_state).wall_normal == old(wall_state).wall_normal,
        final(wall_state).is_clinging == (old(wall_state).is_clinging && !intent.jump_pressed),
        wall_jumps(*intent, *old(wall_state)) ==> {
            &&& final(velocity).y == WALL_JUMP_VERTICAL_VELOCITY
            &&& old(wall_state).wall_normal.x == ONE ==> final(velocity).x == WALL_JUMP_HORIZONTAL_VELOCITY
            &&& old(wall_state).wall_normal.x == -ONE ==> final(velocity).x == -WALL_JUMP_HORIZONTAL_VELOCITY
        },
        !wall_jumps(*intent, *old(wall_state)) ==> {
            &&& final(velocity).x == old(velocity).x
            &&& !(grounded.is_grounded && intent.jump_pressed) ==> {
                &&& intent.jump_just_released && old(velocity).y < 0 ==> final(velocity).y == div_toward_zero(old(velocity).y as int, 2)
                &&& !(intent.jump_just_released && old(velocity).y < 0) ==> final(velocity).y == old(velocity).y
            }
        },
{
    if wall_state.is_clinging && intent.jump_pressed {
        let away = div_trunc(mul_wide(wall_state.wall_normal.x as i64, WALL_JUMP_HORIZONTAL_VELOCITY as i64), ONE as i128);
        velocity.x = saturate(away);
        velocity.y = WALL_JUMP_VERTICAL_VELOCITY;
        wall_state.is_clinging = false;
        return ;
    }
    if grounded.is_grounded && intent.jump_pressed {
        if ability_set.has(Ability::HighJump) {
            velocity.y = HIGH_JUMP_VELOCITY;
        } else {
            velocity.y = BASE_JUMP_VELOCITY;
        }
    }
    if intent.jump_just_released && velocity.y < 0 {
        velocity.y = -((-(velocity.y as i64)) / 2) as i32;
    }
}

/// With the high-jump ability a jump is strictly stronger than without it,
/// all else being equal: whenever a jump from the ground starts, the upward
/// velocity with the ability exceeds the upward velocity without.
pub proof fn lemma_high_jump_is_stronger(intent: PlayerIntent, velocity: Velocity, grounded: GroundedState, with_ability: AbilitySet, without_ability: AbilitySet, wall: WallClimbState)
    requires
        grounded.is_grounded,
        intent.jump_pressed,
        !wall.is_clinging,
        with_ability@.contains(Ability::HighJump),
        !without_ability@.contains(Ability::HighJump),
    ensures
        jumped(intent, velocity, grounded, with_ability, wall).y < jumped(intent, velocity, grounded, without_ability, wall).y < 0,
        jumped(intent, velocity, grounded, with_ability, wall).x == jumped(intent, velocity, grounded, without_ability, wall).x,
{
}

/// A released jump is cut to half its upward velocity: exactly, when the
/// velocity is an even count of thousandths; else to the half rounded toward
/// zero. A jump that is not released, or an entity that is not rising, keeps
/// its vertical velocity.
pub proof fn lemma_jump_cut_is_half(intent: PlayerIntent, velocity: Velocity, grounded: GroundedState, abilities: AbilitySet, wall: WallClimbState)
    requires
        !wall_jumps(intent, wall),
        !(grounded.is_grounded && intent.jump_pressed),
    ensures
        intent.jump_just_released && velocity.y < 0 ==> {
            &&& velocity.y <= 2 * jumped(intent, velocity, grounded, abilities, wall).y <= velocity.y + 1
            &&& velocity.y % 2 == 0 ==> 2 * jumped(intent, velocity, grounded, abilities, wall).y == velocity.y
        },
        !intent.jump_just_released || velocity.y >= 0 ==> jumped(intent, velocity, grounded, abilities, wall).y == velocity.y,
        jumped(intent, velocity, grounded, abilities, wall).x == velocity.x,
{
}

/// Where the wall-top probe starts: the entity's position raised by
/// `WALL_TOP_CHECK_DISTANCE`.
pub open spec fn raised(pos: Position) -> Position {
    Position { x: pos.x, y: saturated(pos.y - WALL_TOP_CHECK_DISTANCE) as i32 }
}

/// The sideways movement that probes for the wall an entity clings to: it
/// runs toward the wall, against the wall's normal, as far as the wall
/// probe reaches. A normal without a horizontal part gives no probe.
pub open spec fn wall_top_probe(wall_normal: Vec2) -> Vec2 {
    if wall_normal.x > 0 {
        Vec2 { x: (-WALL_CHECK_DISTANCE) as i32, y: 0 }
    } else if wall_normal.x < 0 {
        Vec2 { x: WALL_CHECK_DISTANCE, y: 0 }
    } else {
        Vec2 { x: 0, y: 0 }
    }
}

/// Whether a contact of the wall-top probe shows more of the wall that the
/// entity clings to: it comes before the end of the probe and its normal is
/// mostly horizontal and points to the same side as the wall's normal.
pub open spec fn continues_wall(contact: Option<(Fraction, Vec2)>, wall_normal: Vec2) -> bool {
    match contact {
        Some((time, normal)) => {
            &&& time.lt(Fraction::spec_one())
            &&& (2 * normal.x > ONE || 2 * normal.x < -ONE)
            &&& (normal.x > 0 && wall_normal.x > 0) || (normal.x < 0 && wall_normal.x < 0)
        },
        None => false,
    }
}

/// Whether the wall goes on above the entity: raised by
/// `WALL_TOP_CHECK_DISTANCE`, the entity still finds some rectangle at its
/// side, where the wall is.
pub open spec fn wall_continues_above(pos: Position, collider: Collider, geometry: Seq<LevelGeometry>, wall_normal: Vec2) -> bool {
    exists|i: int| 0 <= i < geometry.len() && continues_wall(sweep(raised(pos), collider, #[trigger] geometry[i], wall_top_probe(wall_normal)), wall_normal)
}

/// The wall goes on above exactly if, with the entity raised by
/// `WALL_TOP_CHECK_DISTANCE`, some rectangle overlaps it in height and has
/// its near side less than the wall probe's reach away, on the wall's side.
pub proof fn lemma_wall_continues_above(pos: Position, collider: Collider, geometry: Seq<LevelGeometry>, wall_normal: Vec2)
    ensures
        wall_continues_above(pos, collider, geometry, wall_normal) <==> exists|i: int| 0 <= i < geometry.len() && is_beside(raised(pos), collider, #[trigger] geometry[i], wall_normal),
{
    assert forall|i: int| 0 <= i < geometry.len() implies (continues_wall(sweep(raised(pos), collider, #[trigger] geometry[i], wall_top_probe(wall_normal)), wall_normal) <==> is_beside(raised(pos), collider, geometry[i], wall_normal)) by {
        lemma_sweep_shape(raised(pos), collider, geometry[i], wall_top_probe(wall_normal));
        assert(ONE == 1000 && WALL_CHECK_DISTANCE == 5000);
    }
    if wall_continues_above(pos, collider, geometry, wall_normal) {
        let i = choose|i: int| 0 <= i < geometry.len() && continues_wall(sweep(raised(pos), collider, #[trigger] geometry[i], wall_top_probe(wall_normal)), wall_normal);
        assert(is_beside(raised(pos), collider, geometry[i], wall_normal));
    }
    if exists|i: int| 0 <= i < geometry.len() && is_beside(raised(pos), collider, #[trigger] geometry[i], wall_normal) {
        let i = choose|i: int| 0 <= i < geometry.len() && is_beside(raised(pos), collider, #[trigger] geometry[i], wall_normal);
        assert(continues_wall(sweep(raised(pos), collider, geometry[i], wall_top_probe(wall_normal)), wall_normal));
    }
}

/// Whether a rectangle stands beside the entity on the side of the wall
/// with this normal: the two overlap in height, and the rectangle's near
/// side is at or beyond the entity's side, by less than the wall probe's
/// reach. (The last clause holds of every box and rectangle without a
/// negative width.)
pub open spec fn is_beside(pos: Position, collider: Collider, geometry: LevelGeometry, wall_normal: Vec2) -> bool {
    &&& overlaps_strictly(collider.top(pos), collider.bottom(pos), geometry.top(), geometry.bottom())
    &&& if wall_normal.x > 0 {
        0 <= collider.left(pos) - geometry.right() < WALL_CHECK_DISTANCE
    } else if wall_normal.x < 0 {
        0 <= geometry.left() - collider.right(pos) < WALL_CHECK_DISTANCE
    } else {
        false
    }
    &&& collider.width + geometry.width >= 0
}

/// Whether the player steers toward the wall, which lies opposite to its normal.
pub open spec fn pressing_toward_wall(intent: PlayerIntent, wall_normal: Vec2) -> bool {
    (wall_normal.x > 0 && intent.move_left) || (wall_normal.x < 0 && intent.move_right)
}

/// The wall state after the cling rules. An entity that clings and finds no
/// wall above it lets go. Otherwise it clings exactly if it has the
/// wall-climb ability, a wall is next to it, it is airborne, and the player
/// steers toward the wall.
pub open spec fn cling_updated(intent: PlayerIntent, abilities: AbilitySet, wall: WallClimbState, grounded: GroundedState, pos: Position, collider: Collider, geometry: Seq<LevelGeometry>) -> WallClimbState {
    if wall.is_clinging && !wall_continues_above(pos, collider, geometry, wall.wall_normal) {
        WallClimbState { is_clinging: false, wall_normal: wall.wall_normal }
    } else {
        WallClimbState {
            is_clinging: abilities@.contains(Ability::WallClimb) && !wall.wall_normal.is_zero() && !grounded.is_grounded && pressing_toward_wall(intent, wall.wall_normal),
            wall_normal: wall.wall_normal,
        }
    }
}

/// Enters, keeps or leaves the wall-cling state.
pub fn update_wall_cling_state(intent: &PlayerIntent, ability_set: &AbilitySet, wall_state: &mut WallClimbState, grounded: &GroundedState, position: &Position, collider: &Collider, geometry: &Vec<LevelGeometry>)
    ensures
        *final(wall_state) == cling_updated(*intent, *ability_set, *old(wall_state), *grounded, *position, *collider, geometry@),
        final(wall_state).is_clinging ==> {
            &&& ability_set@.contains(Ability::WallClimb)
            &&& !final(wall_state).wall_normal.is_zero()
            &&& !grounded.is_grounded
            &&& pressing_toward_wall(*intent, final(wall_state).wall_normal)
            &&& old(wall_state).is_clinging ==> wall_continues_above(*position, *collider, geometry@, old(wall_state).wall_normal)
        },
{
    let has_wall_climb = ability_set.has(Ability::WallClimb);
    let wall_normal = wall_state.wall_normal;
    let wall_detected = wall_normal.x != 0 || wall_normal.y != 0;
    if wall_state.is_clinging {
        let mut wall_continues = false;
        let raised_position = Position { x: position.x, y: saturate(position.y as i128 - WALL_TOP_CHECK_DISTANCE as i128) };
        let check_beside = if wall_normal.x > 0 {
            Vec2 { x: -WALL_CHECK_DISTANCE, y: 0 }
        } else if wall_normal.x < 0 {
            Vec2 { x: WALL_CHECK_DISTANCE, y: 0 }
        } else {
            Vec2 { x: 0, y: 0 }
        };
        let mut i: usize = 0;
        while i < geometry.len()
            invariant_except_break
                i <= geometry.len(),
                !wall_continues,
                forall|j: int| 0 <= j < i ==> !continues_wall(sweep(raised_position, *collider, #[trigger] geometry@[j], check_beside), wall_normal),
            invariant
                raised_position == raised(*position),
                check_beside == wall_top_probe(wall_normal),
            ensures
                wall_continues == wall_continues_above(*position, *collider, geometry@, wall_normal),
            decreases geometry.len() - i,
        {
            if let Some((time, normal)) = swept_aabb_collision(&raised_position, collider, &geometry[i], check_beside) {
                if time.less_than(&Fraction::one()) && (normal.x > ONE / 2 || normal.x < -(ONE / 2)) && ((normal.x > 0
                    && wall_normal.x > 0) || (normal.x < 0 && wall_normal.x < 0)) {
                    wall_continues = true;
                    break;
                }
            }
            i += 1;
        }
        if !wall_continues {
            wall_state.is_clinging = false;
            return ;
        }
    }
    if has_wall_climb && wall_detected && !grounded.is_grounded {
        let wall_on_left = wall_normal.x > 0;
        let wall_on_right = wall_normal.x < 0;
        wall_state.is_clinging = (wall_on_left && intent.move_left) || (wall_on_right && intent.move_right);
    } else {
        wall_state.is_clinging = false;
    }
}

/// `velocity` while clinging: no horizontal movement, and a climb at the
/// climbing speed if a direction is held, else no vertical movement either.
/// An entity that does not cling keeps its velocity.
pub open spec fn wall_climb_applied(intent: PlayerIntent, wall: WallClimbState, velocity: Velocity) -> Velocity {
    if !wall.is_clinging {
        velocity
    } else if intent.move_left || intent.move_right {
        Velocity { x: 0, y: (-WALL_CLIMB_SPEED) as i32 }
    } else {
        Velocity { x: 0, y: 0 }
    }
}

/// Sets the velocity of a clinging entity.
pub fn apply_wall_climb_movement_system(intent: &PlayerIntent, wall_state: &WallClimbState, velocity: &mut Velocity)
    ensures
        *final(velocity) == wall_climb_applied(*intent, *wall_state, *old(velocity)),
{
    if wall_state.is_clinging {
        if intent.move_left || intent.move_right {
            velocity.y = -WALL_CLIMB_SPEED;
        } else {
            velocity.y = 0;
        }
        velocity.x = 0;
    }
}

} // verus!
