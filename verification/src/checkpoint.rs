//! Checkpoints: activating them, and the game state that is kept at one.

use crate::components::{AbilitySet, Position};
use crate::fixed::mul_wide;
use crate::swing::{distance_squared, squared_distance};
use vstd::prelude::*;

verus! {

/// The distance within which the player activates a checkpoint.
pub const CHECKPOINT_ACTIVATION_RANGE: i32 = 64_000;

/// A checkpoint of the level.
#[derive(Clone, Debug, PartialEq, Eq)]
pub struct Checkpoint {
    pub id: String,
    pub activated: bool,
}

impl Checkpoint {
    pub fn new(id: String) -> (checkpoint: Self)
        ensures
            checkpoint.id == id,
            !checkpoint.activated,
    {
        Self { id, activated: false }
    }
}

/// The state of the game at a checkpoint, as it is saved and loaded.
#[derive(Clone, Debug, PartialEq, Eq)]
pub struct GameState {
    pub checkpoint_id: String,
    pub checkpoint_level: String,
    pub checkpoint_position: Position,
    pub unlocked_abilities: AbilitySet,
    /// When the state was captured, in seconds since the Unix epoch.
    pub timestamp: u64,
}

impl GameState {
    pub fn new(checkpoint_id: String, checkpoint_level: String, checkpoint_position: Position, unlocked_abilities: AbilitySet, timestamp: u64) -> (state: Self)
        ensures
            state.checkpoint_id == checkpoint_id,
            state.checkpoint_level == checkpoint_level,
            state.checkpoint_position == checkpoint_position,
            state.unlocked_abilities == unlocked_abilities,
            state.timestamp == timestamp,
    {
        Self { checkpoint_id, checkpoint_level, checkpoint_position, unlocked_abilities, timestamp }
    }
}

/// The game state captured at the last checkpoint, if any.
#[derive(Clone, Debug, PartialEq, Eq)]
pub struct CurrentGameState {
    pub state: Option<GameState>,
}

impl Default for CurrentGameState {
    fn default() -> (current: Self)
        ensures
            current.state is None,
    {
        Self { state: None }
    }
}

/// Whether the player is near enough to a checkpoint to activate it.
pub open spec fn within_activation_range(player_pos: Position, checkpoint_pos: Position) -> bool {
    distance_squared(player_pos, checkpoint_pos) <= CHECKPOINT_ACTIVATION_RANGE * CHECKPOINT_ACTIVATION_RANGE
}

/// Activates a checkpoint when the player comes near it. Says whether the
/// checkpoint was activated by this call; one that is active stays active.
pub fn checkpoint_activation_system(checkpoint: &mut Checkpoint, checkpoint_pos: &Position, player_pos: &Position) -> (newly_activated: bool)
    ensures
        newly_activated == (!old(checkpoint).activated && within_activation_range(*player_pos, *checkpoint_pos)),
        final(checkpoint).activated == (old(checkpoint).activated || newly_activated),
        final(checkpoint).id == old(checkpoint).id,
{
    if checkpoint.activated {
        return false;
    }
    let range = mul_wide(CHECKPOINT_ACTIVATION_RANGE as i64, CHECKPOINT_ACTIVATION_RANGE as i64);
    if squared_distance(player_pos, checkpoint_pos) <= range {
        checkpoint.activated = true;
        true
    } else {
        false
    }
}

/// Captures the player's state at a checkpoint that was just activated.
/// `timestamp` is the current time in seconds since the Unix epoch.
pub fn checkpoint_save_system(checkpoint_id: &String, player_pos: &Position, abilities: &AbilitySet, timestamp: u64, current_state: &mut CurrentGameState)
    ensures
        final(current_state).state matches Some(state) && {
            &&& state.checkpoint_id == *checkpoint_id
            &&& state.checkpoint_level@ == "current_level"@
            &&& state.checkpoint_position == *player_pos
            &&& state.unlocked_abilities == *abilities
            &&& state.timestamp == timestamp
        },
{
    let game_state = GameState::new(checkpoint_id.clone(), "current_level".to_owned(), *player_pos, *abilities, timestamp);
    current_state.state = Some(game_state);
}

/// Puts the player back to the captured state. Without a captured state
/// nothing changes. Says whether the player was put back.
pub fn checkpoint_restore_system(current_state: &CurrentGameState, player_pos: &mut Position, abilities: &mut AbilitySet) -> (restored: bool)
    ensures
        restored == (current_state.state is Some),
        current_state.state matches Some(state) ==> *final(player_pos) == state.checkpoint_position && *final(abilities) == state.unlocked_abilities,
        current_state.state is None ==> *final(player_pos) == *old(player_pos) && *final(abilities) == *old(abilities),
{
    match &current_state.state {
        Some(game_state) => {
            *player_pos = game_state.checkpoint_position;
            *abilities = game_state.unlocked_abilities;
            true
        },
        None => false,
    }
}

} // verus!
