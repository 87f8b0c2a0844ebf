//! Choosing the animation, the facing direction and the visual effects that
//! show what the player does.

use crate::components::{
    AbilitySet, AnimationState, GroundedState, PlayerIntent, Position, PowerUp, SwingState, Velocity, WallClimbState,
};
use crate::enums::{Ability, AnimationType};
use crate::fixed::{mul_wide, TimeStep};
use crate::swing::{distance_squared, squared_distance};
use vstd::prelude::*;

verus! {

/// The horizontal speed above which an entity counts as moving sideways.
pub const MOVING_THRESHOLD: i32 = 100;

/// How long the effect of a jump, wall jump or swing attachment lasts, in
/// microseconds.
pub const ABILITY_EFFECT_LIFETIME: u64 = 300_000;

/// How long the effect of a collected power-up lasts, in microseconds.
pub const COLLECTION_EFFECT_LIFETIME: u64 = 500_000;

/// The distance below which a power-up shows its collection effect.
pub const COLLECTION_EFFECT_RANGE: i32 = 32_000;

/// The side a sprite faces.
#[derive(Clone, Copy, Debug, PartialEq, Eq, Structural)]
pub enum FacingDirection {
    Left,
    Right,
}

/// What a visual effect shows.
#[derive(Clone, Copy, Debug, PartialEq, Eq, Structural)]
pub enum VisualEffectType {
    Jump,
    WallJump,
    SwingAttach,
    AbilityActivation(Ability),
    PowerUpCollection(Ability),
}

/// A short-lived visual effect, with its age and lifetime in microseconds.
#[derive(Clone, Copy, Debug, PartialEq, Eq, Structural)]
pub struct VisualEffect {
    pub effect_type: VisualEffectType,
    pub lifetime: u64,
    pub elapsed: u64,
}

impl VisualEffect {
    pub fn new(effect_type: VisualEffectType, lifetime: u64) -> (effect: Self)
        ensures
            effect == (VisualEffect { effect_type, lifetime, elapsed: 0 }),
    {
        Self { effect_type, lifetime, elapsed: 0 }
    }

    /// An effect is over once it is as old as its lifetime.
    pub fn is_expired(&self) -> (expired: bool)
        ensures
            expired == (self.elapsed >= self.lifetime),
    {
        self.elapsed >= self.lifetime
    }

    /// The age of the effect after a step of `dt`: the whole step is added,
    /// up to the largest age that can be stored.
    pub open spec fn aged(self, dt: TimeStep) -> int {
        if self.elapsed + dt.micros > u64::MAX {
            u64::MAX as int
        } else {
            self.elapsed + dt.micros
        }
    }

    /// Lets the effect age by one step.
    pub fn advance(&mut self, dt: TimeStep)
        ensures
            final(self).elapsed == old(self).aged(dt),
            final(self).effect_type == old(self).effect_type,
            final(self).lifetime == old(self).lifetime,
    {
        self.elapsed = self.elapsed.saturating_add(dt.micros as u64);
    }
}

/// The animation that shows the player's movement. Swinging comes first,
/// then clinging to a wall, then the air (rising or falling), then the
/// ground (running or idle).
pub open spec fn animation_for(velocity: Velocity, grounded: GroundedState, wall: WallClimbState, swinging: bool) -> AnimationType {
    if swinging {
        AnimationType::Swinging
    } else if wall.is_clinging {
        AnimationType::WallCling
    } else if !grounded.is_grounded {
        if velocity.y < 0 {
            AnimationType::Jumping
        } else {
            AnimationType::Falling
        }
    } else if velocity.x > MOVING_THRESHOLD || velocity.x < -MOVING_THRESHOLD {
        AnimationType::Running
    } else {
        AnimationType::Idle
    }
}

/// The animation state after the update: a new animation starts at its
/// first frame; the same animation goes on undisturbed.
pub open spec fn animation_updated(state: AnimationState, velocity: Velocity, grounded: GroundedState, wall: WallClimbState, swinging: bool) -> AnimationState {
    let next = animation_for(velocity, grounded, wall, swinging);
    if state.current == next {
        state
    } else {
        AnimationState { current: next, frame: 0, timer: 0 }
    }
}

/// Selects the animation for the player's movement and restarts the
/// animation state when it changes.
pub fn update_animation_state_system(anim_state: &mut AnimationState, velocity: &Velocity, grounded: &GroundedState, wall_state: &WallClimbState, swing_state: &Option<SwingState>)
    ensures
        *final(anim_state) == animation_updated(*old(anim_state), *velocity, *grounded, *wall_state, swing_state is Some),
{
    let new_animation = if swing_state.is_some() {
        AnimationType::Swinging
    } else if wall_state.is_clinging {
        AnimationType::WallCling
    } else if !grounded.is_grounded {
        if velocity.y < 0 {
            AnimationType::Jumping
        } else {
            AnimationType::Falling
        }
    } else if velocity.x > MOVING_THRESHOLD || velocity.x < -MOVING_THRESHOLD {
        AnimationType::Running
    } else {
        AnimationType::Idle
    };
    if anim_state.current != new_animation {
        anim_state.current = new_animation;
        anim_state.frame = 0;
        anim_state.timer = 0;
    }
}

/// The side the sprite faces: the side it moves to, or the side it faced
/// before while it hardly moves sideways.
pub open spec fn facing_for(velocity: Velocity, facing: FacingDirection) -> FacingDirection {
    if velocity.x > MOVING_THRESHOLD {
        FacingDirection::Right
    } else if velocity.x < -MOVING_THRESHOLD {
        FacingDirection::Left
    } else {
        facing
    }
}

/// Turns the sprite to the side it moves to. Says whether the velocity
/// decided the side, which is when the sprite is to be drawn facing it.
pub fn update_facing_direction_system(velocity: &Velocity, facing: &mut FacingDirection) -> (decided: bool)
    ensures
        *final(facing) == facing_for(*velocity, *old(facing)),
        decided == (velocity.x > MOVING_THRESHOLD || velocity.x < -MOVING_THRESHOLD),
{
    if velocity.x > MOVING_THRESHOLD {
        *facing = FacingDirection::Right;
        true
    } else if velocity.x < -MOVING_THRESHOLD {
        *facing = FacingDirection::Left;
        true
    } else {
        false
    }
}

/// What the player was doing in the step before, kept to notice the moment
/// at which an action starts.
#[derive(Clone, Copy, Debug, PartialEq, Eq, Structural)]
pub struct AbilityEffectTracker {
    pub was_jumping: bool,
    pub was_wall_jumping: bool,
    pub was_swinging: bool,
}

impl Default for AbilityEffectTracker {
    fn default() -> (tracker: Self)
        ensures
            tracker == (AbilityEffectTracker { was_jumping: false, was_wall_jumping: false, was_swinging: false }),
    {
        Self { was_jumping: false, was_wall_jumping: false, was_swinging: false }
    }
}

/// Whether the player jumps from the ground in this step.
pub open spec fn is_jumping(intent: PlayerIntent, grounded: GroundedState) -> bool {
    intent.jump_pressed && grounded.is_grounded
}

/// Whether the player jumps off a wall in this step.
pub open spec fn is_wall_jumping(intent: PlayerIntent, wall: WallClimbState) -> bool {
    wall.is_clinging && intent.jump_pressed
}

/// The effect that a jump from the ground shows.
pub open spec fn jump_effect(abilities: AbilitySet) -> VisualEffect {
    VisualEffect {
        effect_type: if abilities@.contains(Ability::HighJump) {
            VisualEffectType::AbilityActivation(Ability::HighJump)
        } else {
            VisualEffectType::Jump
        },
        lifetime: ABILITY_EFFECT_LIFETIME,
        elapsed: 0,
    }
}

/// The effects that start in this step: one for each action that the
/// player performs now and did not perform in the step before, in the order
/// jump, wall jump, swing attachment.
pub open spec fn ability_effects(intent: PlayerIntent, abilities: AbilitySet, grounded: GroundedState, wall: WallClimbState, swinging: bool, tracker: AbilityEffectTracker) -> Seq<VisualEffect> {
    let jump = if is_jumping(intent, grounded) && !tracker.was_jumping {
        seq![jump_effect(abilities)]
    } else {
        Seq::empty()
    };
    let wall_jump = if is_wall_jumping(intent, wall) && !tracker.was_wall_jumping {
        seq![VisualEffect { effect_type: VisualEffectType::WallJump, lifetime: ABILITY_EFFECT_LIFETIME, elapsed: 0 }]
    } else {
        Seq::empty()
    };
    let swing = if swinging && !tracker.was_swinging {
        seq![VisualEffect { effect_type: VisualEffectType::SwingAttach, lifetime: ABILITY_EFFECT_LIFETIME, elapsed: 0 }]
    } else {
        Seq::empty()
    };
    jump + wall_jump + swing
}

/// Starts the effects of the actions that begin in this step, and remembers
/// what the player does for the next step.
pub fn spawn_ability_visual_effects_system(intent: &PlayerIntent, abilities: &AbilitySet, grounded: &GroundedState, wall_state: &WallClimbState, swinging: bool, tracker: &mut AbilityEffectTracker) -> (effects: Vec<VisualEffect>)
    ensures
        effects@ == ability_effects(*intent, *abilities, *grounded, *wall_state, swinging, *old(tracker)),
        final(tracker).was_jumping == is_jumping(*intent, *grounded),
        final(tracker).was_wall_jumping == is_wall_jumping(*intent, *wall_state),
        final(tracker).was_swinging == swinging,
{
    let mut effects: Vec<VisualEffect> = Vec::new();
    let jumping = intent.jump_pressed && grounded.is_grounded;
    if jumping && !tracker.was_jumping {
        let effect_type = if abilities.has(Ability::HighJump) {
            VisualEffectType::AbilityActivation(Ability::HighJump)
        } else {
            VisualEffectType::Jump
        };
        effects.push(VisualEffect::new(effect_type, ABILITY_EFFECT_LIFETIME));
    }
    tracker.was_jumping = jumping;
    let wall_jumping = wall_state.is_clinging && intent.jump_pressed;
    if wall_jumping && !tracker.was_wall_jumping {
        effects.push(VisualEffect::new(VisualEffectType::WallJump, ABILITY_EFFECT_LIFETIME));
    }
    tracker.was_wall_jumping = wall_jumping;
    if swinging && !tracker.was_swinging {
        effects.push(VisualEffect::new(VisualEffectType::SwingAttach, ABILITY_EFFECT_LIFETIME));
    }
    tracker.was_swinging = swinging;
    assert(effects@ =~= ability_effects(*intent, *abilities, *grounded, *wall_state, swinging, *old(tracker)));
    effects
}

/// Whether a power-up is near enough to the player to show its collection
/// effect.
pub open spec fn shows_collection_effect(player_pos: Position, power_up_pos: Position) -> bool {
    distance_squared(player_pos, power_up_pos) < COLLECTION_EFFECT_RANGE * COLLECTION_EFFECT_RANGE
}

/// The collection effect of a power-up.
pub open spec fn collection_effect(power_up: PowerUp) -> VisualEffect {
    VisualEffect {
        effect_type: VisualEffectType::PowerUpCollection(power_up.ability),
        lifetime: COLLECTION_EFFECT_LIFETIME,
        elapsed: 0,
    }
}

/// The collection effects of the first `count` power-ups, each with the
/// position at which it is shown, in the order of the power-ups.
pub open spec fn collection_effects(player_pos: Position, power_ups: Seq<(Position, PowerUp)>, count: int) -> Seq<(Position, VisualEffect)>
    decreases count,
{
    if count <= 0 {
        Seq::empty()
    } else {
        let earlier = collection_effects(player_pos, power_ups, count - 1);
        let (position, power_up) = power_ups[count - 1];
        if shows_collection_effect(player_pos, position) {
            earlier.push((position, collection_effect(power_up)))
        } else {
            earlier
        }
    }
}

/// Starts the collection effect of every power-up near the player, at the
/// power-up's position.
pub fn spawn_power_up_collection_effects_system(player_pos: &Position, power_ups: &Vec<(Position, PowerUp)>) -> (effects: Vec<(Position, VisualEffect)>)
    ensures
        effects@ == collection_effects(*player_pos, power_ups@, power_ups@.len() as int),
{
    let mut effects: Vec<(Position, VisualEffect)> = Vec::new();
    let mut i: usize = 0;
    while i < power_ups.len()
        invariant
            i <= power_ups.len(),
            effects@ == collection_effects(*player_pos, power_ups@, i as int),
        decreases power_ups.len() - i,
    {
        let (position, power_up) = power_ups[i];
        if squared_distance(player_pos, &position) < mul_wide(COLLECTION_EFFECT_RANGE as i64, COLLECTION_EFFECT_RANGE as i64) {
            effects.push((position, VisualEffect::new(VisualEffectType::PowerUpCollection(power_up.ability), COLLECTION_EFFECT_LIFETIME)));
        }
        i += 1;
    }
    effects
}

} // verus!
