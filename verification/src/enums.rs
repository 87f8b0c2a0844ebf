//! Plain tags shared by the movement rules and their consumers.

use vstd::prelude::*;

verus! {

/// A power-up the player can unlock.
#[derive(Clone, Copy, Debug, PartialEq, Eq, Hash, Structural)]
pub enum Ability {
    HighJump,
    WallClimb,
    Swing,
}

/// The movement mode an entity is in during a step.
#[derive(Clone, Copy, Debug, PartialEq, Eq, Structural)]
pub enum PlayerMovementState {
    Grounded,
    Airborne,
    WallCling,
    Swinging,
}

/// The sprite animation that represents a movement mode.
#[derive(Clone, Copy, Debug, PartialEq, Eq, Structural)]
pub enum AnimationType {
    Idle,
    Running,
    Jumping,
    Falling,
    WallCling,
    Swinging,
}

} // verus!
