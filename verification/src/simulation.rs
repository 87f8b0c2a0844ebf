//! One simulation step of the player: the controller and the physics stages
//! in their fixed order, and runs of many steps.

use crate::components::{
    AbilitySet, Collider, GroundedState, LevelGeometry, PlayerIntent, Position, SwingPoint, SwingState, Vec2,
    Velocity, WallClimbState,
};
use crate::enums::PlayerMovementState;
use crate::fixed::TimeStep;
use crate::physics::{
    apply_gravity, apply_slope_physics, gravity_applied, grounded_on, resolve_collisions, resolved_position,
    resolved_velocity, slope_adjusted, update_grounded_state, update_wall_contact, wall_normal_at,
};
use crate::player::{
    apply_horizontal_movement_system, apply_jump_system, apply_wall_climb_movement_system, cling_updated, jumped,
    steered, update_wall_cling_state, wall_climb_applied, wall_continues_above,
};
use crate::swing::{
    attach_to_swing_system, attached, detect_swing_points_system, detected_swing_point, on_arc, place_on_arc,
    release_swing_system, released, swing_angle_step, swing_angular_velocity, update_swing_physics_system,
};
use vstd::prelude::*;

verus! {

/// The one controllable entity: everything that a step reads and writes.
#[derive(Clone, Copy, Debug, PartialEq, Eq)]
pub struct Player {
    pub position: Position,
    pub velocity: Velocity,
    pub collider: Collider,
    pub grounded: GroundedState,
    pub wall: WallClimbState,
    /// The rope the player swings on; `None` while not swinging.
    pub swing: Option<SwingState>,
    pub abilities: AbilitySet,
}

/// What is left to do after `step`.
#[derive(Clone, Copy, Debug, PartialEq, Eq)]
pub enum StepAction {
    /// The step is complete.
    Done,
    /// The player swings: the rope turns by `angle_step` thousandths of a
    /// radian, and `finish_swing_step` is to be called with the direction in
    /// which it then points.
    PlaceOnArc { angle_step: i64 },
}

impl Player {
    /// The invariants of a player between steps: a rope has positive length,
    /// the ground normal is zero exactly when the player is airborne, and a
    /// player clings only with the wall-climb ability, next to a wall, and
    /// in the air.
    pub open spec fn wf(self) -> bool {
        &&& self.swing matches Some(swing) ==> swing.wf()
        &&& self.grounded.wf()
        &&& self.wall.is_clinging ==> {
            &&& self.abilities@.contains(crate::enums::Ability::WallClimb)
            &&& !self.wall.wall_normal.is_zero()
            &&& !self.grounded.is_grounded
        }
    }

    /// A player at rest in the air, without abilities.
    pub fn new(position: Position, collider: Collider) -> (player: Self)
        ensures
            player.position == position,
            player.collider == collider,
            player.velocity == (Velocity { x: 0, y: 0 }),
            !player.grounded.is_grounded,
            !player.wall.is_clinging,
            player.wall.wall_normal == Vec2::spec_zero(),
            player.swing is None,
            player.abilities@ == Set::<crate::enums::Ability>::empty(),
            player.wf(),
    {
        Player {
            position,
            velocity: Velocity { x: 0, y: 0 },
            collider,
            grounded: GroundedState { is_grounded: false, ground_normal: Vec2 { x: 0, y: 0 } },
            wall: WallClimbState { is_clinging: false, wall_normal: Vec2 { x: 0, y: 0 } },
            swing: None,
            abilities: AbilitySet::new(),
        }
    }

    /// The movement mode: swinging comes before clinging, clinging before
    /// standing, and what is left is the air.
    pub open spec fn spec_movement_state(self) -> PlayerMovementState {
        if self.swing is Some {
            PlayerMovementState::Swinging
        } else if self.wall.is_clinging {
            PlayerMovementState::WallCling
        } else if self.grounded.is_grounded {
            PlayerMovementState::Grounded
        } else {
            PlayerMovementState::Airborne
        }
    }

    /// The movement mode the player is in.
    pub fn movement_state(&self) -> (state: PlayerMovementState)
        ensures
            state == self.spec_movement_state(),
    {
        if self.swing.is_some() {
            PlayerMovementState::Swinging
        } else if self.wall.is_clinging {
            PlayerMovementState::WallCling
        } else if self.grounded.is_grounded {
            PlayerMovementState::Grounded
        } else {
            PlayerMovementState::Airborne
        }
    }
}

/// The player after one step of the controller and the physics stages, in
/// this order: cling rules, steering, climbing, jumping, gravity (unless
/// grounded or clinging), movement through the level, ground and wall
/// contact at the new position (where a cling ends that has lost its wall
/// or has reached the ground), slope forces, and the attach rule.
pub open spec fn stepped_freely(player: Player, intent: PlayerIntent, geometry: Seq<LevelGeometry>, swing_points: Seq<(Position, SwingPoint)>, dt: TimeStep) -> Player {
    let clung = cling_updated(intent, player.abilities, player.wall, player.grounded, player.position, player.collider, geometry);
    let run = steered(intent, player.velocity, player.grounded);
    let climbed = wall_climb_applied(intent, clung, run);
    let jump = jumped(intent, climbed, player.grounded, player.abilities, clung);
    let clinging = clung.is_clinging && !intent.jump_pressed;
    let fallen = gravity_applied(
        jump,
        player.grounded,
        WallClimbState { is_clinging: clinging, wall_normal: clung.wall_normal },
        dt,
    );
    let position = resolved_position(player.position, fallen, player.collider, geometry, dt);
    let moved = resolved_velocity(player.position, fallen, player.collider, geometry, dt);
    let grounded = grounded_on(position, player.collider, geometry);
    let wall_normal = wall_normal_at(position, player.collider, geometry, intent, moved);
    let wall = WallClimbState {
        is_clinging: clinging && !grounded.is_grounded && !wall_normal.is_zero(),
        wall_normal,
    };
    let velocity = slope_adjusted(moved, grounded, dt);
    let swing = attached(None, player.abilities, intent, grounded, detected_swing_point(position, swing_points));
    Player { position, velocity, collider: player.collider, grounded, wall, swing, abilities: player.abilities }
}

/// The player after one step. A swinging player only has its angular
/// velocity advanced: gravity, collision and contact classification do not
/// run for it. Any other player takes a free step.
pub open spec fn stepped(player: Player, intent: PlayerIntent, geometry: Seq<LevelGeometry>, swing_points: Seq<(Position, SwingPoint)>, dt: TimeStep) -> Player {
    match player.swing {
        Some(swing) => Player {
            swing: Some(
                SwingState {
                    anchor_point: swing.anchor_point,
                    rope_length: swing.rope_length,
                    angular_velocity: swing_angular_velocity(player.position, swing, intent, dt) as i32,
                },
            ),
            ..player
        },
        None => stepped_freely(player, intent, geometry, swing_points, dt),
    }
}

/// What is left to do after the step.
pub open spec fn step_action(player: Player, intent: PlayerIntent, dt: TimeStep) -> StepAction {
    match player.swing {
        Some(swing) => StepAction::PlaceOnArc { angle_step: swing_angle_step(player.position, swing, intent, dt) as i64 },
        None => StepAction::Done,
    }
}

/// Advances the player by one step.
pub fn step(player: &mut Player, intent: &PlayerIntent, geometry: &Vec<LevelGeometry>, swing_points: &Vec<(Position, SwingPoint)>, dt: TimeStep) -> (action: StepAction)
    requires
        old(player).wf(),
    ensures
        *final(player) == stepped(*old(player), *intent, geometry@, swing_points@, dt),
        action == step_action(*old(player), *intent, dt),
        final(player).wf(),
        old(player).swing is None ==> final(player).grounded == grounded_on(final(player).position, final(player).collider, geometry@),
        old(player).swing is Some ==> {
            &&& final(player).swing is Some
            &&& final(player).position == old(player).position
            &&& final(player).velocity == old(player).velocity
            &&& final(player).grounded == old(player).grounded
            &&& final(player).wall == old(player).wall
        },
        old(player).swing is None && final(player).wall.is_clinging ==> {
            &&& final(player).abilities@.contains(crate::enums::Ability::WallClimb)
            &&& !final(player).grounded.is_grounded
            &&& !final(player).wall.wall_normal.is_zero()
            &&& !old(player).grounded.is_grounded
            &&& !old(player).wall.wall_normal.is_zero()
            &&& !intent.jump_pressed
            &&& old(player).wall.is_clinging ==> wall_continues_above(old(player).position, old(player).collider, geometry@, old(player).wall.wall_normal)
        },
        final(player).abilities == old(player).abilities,
        final(player).collider == old(player).collider,
{
    if let Some(swing) = player.swing {
        let mut swing = swing;
        let angle_step = update_swing_physics_system(&player.position, &mut swing, intent, dt);
        player.swing = Some(swing);
        return StepAction::PlaceOnArc { angle_step };
    }
    let mut wall = player.wall;
    let mut velocity = player.velocity;
    let mut position = player.position;
    let mut grounded = player.grounded;
    update_wall_cling_state(intent, &player.abilities, &mut wall, &player.grounded, &player.position, &player.collider, geometry);
    apply_horizontal_movement_system(intent, &mut velocity, &player.grounded);
    apply_wall_climb_movement_system(intent, &wall, &mut velocity);
    apply_jump_system(intent, &mut velocity, &player.grounded, &player.abilities, &mut wall);
    apply_gravity(&mut velocity, &player.grounded, &wall, dt);
    resolve_collisions(&mut position, &mut velocity, &player.collider, geometry, dt);
    update_grounded_state(&position, &player.collider, &mut grounded, geometry);
    update_wall_contact(&position, &player.collider, &mut wall, &grounded, geometry, intent, &velocity);
    apply_slope_physics(&mut velocity, &grounded, dt);
    let nearest = detect_swing_points_system(&position, swing_points);
    let swing = attach_to_swing_system(None, &player.abilities, intent, &grounded, nearest);
    player.position = position;
    player.velocity = velocity;
    player.grounded = grounded;
    player.wall = wall;
    player.swing = swing;
    StepAction::Done
}

/// The player after a swinging step is completed: on the arc where the rope
/// points along `direction`, with the velocity of the swing, and off the
/// rope if the jump button was just released. A player that does not swing
/// is left as it is.
pub open spec fn swing_finished(player: Player, intent: PlayerIntent, direction: Vec2) -> Player {
    match player.swing {
        Some(swing) => Player {
            position: on_arc(swing, direction).0,
            velocity: on_arc(swing, direction).1,
            swing: released(intent, player.swing),
            ..player
        },
        None => player,
    }
}

/// Completes a swinging step. `direction` is the unit vector from the anchor
/// along the rope after it has turned by the angle that `step` returned.
pub fn finish_swing_step(player: &mut Player, intent: &PlayerIntent, direction: Vec2)
    requires
        old(player).wf(),
    ensures
        *final(player) == swing_finished(*old(player), *intent, direction),
        final(player).wf(),
{
    if let Some(swing) = player.swing {
        let (position, velocity) = place_on_arc(&swing, direction);
        player.position = position;
        player.velocity = velocity;
        player.swing = release_swing_system(intent, player.swing);
    }
}

/// What one step of a run is driven by.
#[derive(Clone, Copy, Debug, PartialEq, Eq)]
pub struct StepInput {
    pub intent: PlayerIntent,
    pub dt: TimeStep,
    /// For a step in which the player swings: the unit vector from the
    /// anchor along the rope after the step. Not read in other steps.
    pub rope_direction: Vec2,
}

/// The player after one whole step of a run.
pub open spec fn advanced(player: Player, input: StepInput, geometry: Seq<LevelGeometry>, swing_points: Seq<(Position, SwingPoint)>) -> Player {
    let next = stepped(player, input.intent, geometry, swing_points, input.dt);
    if player.swing is Some {
        swing_finished(next, input.intent, input.rope_direction)
    } else {
        next
    }
}

/// The states that the player passes through: one after each input.
pub open spec fn trajectory(player: Player, inputs: Seq<StepInput>, geometry: Seq<LevelGeometry>, swing_points: Seq<(Position, SwingPoint)>) -> Seq<Player>
    decreases inputs.len(),
{
    if inputs.len() == 0 {
        Seq::empty()
    } else {
        let earlier = trajectory(player, inputs.drop_last(), geometry, swing_points);
        let previous = if earlier.len() == 0 {
            player
        } else {
            earlier.last()
        };
        earlier.push(advanced(previous, inputs.last(), geometry, swing_points))
    }
}

/// Determinism: two runs from the same state, over the same level and with
/// the same inputs, pass through the same states.
pub proof fn lemma_simulation_is_deterministic(first: Player, second: Player, first_inputs: Seq<StepInput>, second_inputs: Seq<StepInput>, geometry: Seq<LevelGeometry>, swing_points: Seq<(Position, SwingPoint)>)
    requires
        first == second,
        first_inputs.len() == second_inputs.len(),
        forall|i: int| 0 <= i < first_inputs.len() ==> first_inputs[i] == second_inputs[i],
    ensures
        trajectory(first, first_inputs, geometry, swing_points) == trajectory(second, second_inputs, geometry, swing_points),
{
    assert(first_inputs =~= second_inputs);
}

/// Runs the player through `inputs` and returns the state after each step.
pub fn simulate(player: Player, inputs: &Vec<StepInput>, geometry: &Vec<LevelGeometry>, swing_points: &Vec<(Position, SwingPoint)>) -> (states: Vec<Player>)
    requires
        player.wf(),
    ensures
        states@ == trajectory(player, inputs@, geometry@, swing_points@),
        states@.len() == inputs@.len(),
        forall|i: int| 0 <= i < states@.len() ==> (#[trigger] states@[i]).wf(),
{
    let mut states: Vec<Player> = Vec::new();
    let mut current = player;
    let mut i: usize = 0;
    while i < inputs.len()
        invariant
            i <= inputs.len(),
            current.wf(),
            states@ == trajectory(player, inputs@.take(i as int), geometry@, swing_points@),
            states@.len() == i,
            current == if i == 0 {
                player
            } else {
                states@.last()
            },
            forall|k: int| 0 <= k < states@.len() ==> (#[trigger] states@[k]).wf(),
        decreases inputs.len() - i,
    {
        let input = inputs[i];
        let swinging = current.swing.is_some();
        step(&mut current, &input.intent, geometry, swing_points, input.dt);
        if swinging {
            finish_swing_step(&mut current, &input.intent, input.rope_direction);
        }
        proof {
            let longer = inputs@.take(i as int + 1);
            assert(longer.drop_last() =~= inputs@.take(i as int));
            assert(longer.last() == input);
        }
        states.push(current);
        i += 1;
    }
    proof {
        assert(inputs@.take(i as int) =~= inputs@);
    }
    states
}

} // verus!
