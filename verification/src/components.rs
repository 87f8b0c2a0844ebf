//! The state an entity carries from step to step, and the static level data.

use crate::enums::{Ability, AnimationType};
use vstd::prelude::*;

verus! {

/// A 2D vector in thousandths. A unit vector has length `ONE`.
#[derive(Clone, Copy, Debug, PartialEq, Eq, Structural)]
pub struct Vec2 {
    pub x: i32,
    pub y: i32,
}

impl Vec2 {
    pub fn new(x: i32, y: i32) -> (v: Self)
        ensures
            v == (Vec2 { x, y }),
    {
        Self { x, y }
    }

    /// The zero vector, which stands for "no contact" in a normal.
    pub fn zero() -> (v: Self)
        ensures
            v == Vec2::spec_zero(),
    {
        Self { x: 0, y: 0 }
    }

    pub open spec fn spec_zero() -> Vec2 {
        Vec2 { x: 0, y: 0 }
    }

    pub open spec fn is_zero(self) -> bool {
        self.x == 0 && self.y == 0
    }
}

/// World coordinates of an entity, in thousandths of a pixel.
#[derive(Clone, Copy, Debug, PartialEq, Eq, Structural)]
pub struct Position {
    pub x: i32,
    pub y: i32,
}

impl Position {
    pub fn new(x: i32, y: i32) -> (p: Self)
        ensures
            p == (Position { x, y }),
    {
        Self { x, y }
    }
}

/// Velocity in thousandths of a pixel per second.
#[derive(Clone, Copy, Debug, PartialEq, Eq, Structural)]
pub struct Velocity {
    pub x: i32,
    pub y: i32,
}

impl Velocity {
    pub fn new(x: i32, y: i32) -> (v: Self)
        ensures
            v == (Velocity { x, y }),
    {
        Self { x, y }
    }
}

impl Default for Velocity {
    fn default() -> (v: Self)
        ensures
            v == (Velocity { x: 0, y: 0 }),
    {
        Self { x: 0, y: 0 }
    }
}

/// An axis-aligned box placed at an offset from its entity's position.
#[derive(Clone, Copy, Debug, PartialEq, Eq, Structural)]
pub struct Collider {
    pub width: i32,
    pub height: i32,
    pub offset_x: i32,
    pub offset_y: i32,
}

impl Collider {
    pub fn new(width: i32, height: i32) -> (c: Self)
        ensures
            c == (Collider { width, height, offset_x: 0, offset_y: 0 }),
    {
        Self { width, height, offset_x: 0, offset_y: 0 }
    }
}

/// Whether an entity rests on a surface, and that surface's normal.
#[derive(Clone, Copy, Debug, PartialEq, Eq, Structural)]
pub struct GroundedState {
    pub is_grounded: bool,
    pub ground_normal: Vec2,
}

impl GroundedState {
    /// The normal is the zero vector exactly when the entity is airborne.
    pub open spec fn wf(self) -> bool {
        self.ground_normal.is_zero() <==> !self.is_grounded
    }
}

impl Default for GroundedState {
    fn default() -> (g: Self)
        ensures
            g == (GroundedState { is_grounded: false, ground_normal: Vec2::spec_zero() }),
            g.wf(),
    {
        Self { is_grounded: false, ground_normal: Vec2 { x: 0, y: 0 } }
    }
}

/// The set of unlocked abilities: one membership flag per ability.
#[derive(Clone, Copy, Debug, PartialEq, Eq, Structural)]
pub struct AbilitySet {
    pub high_jump: bool,
    pub wall_climb: bool,
    pub swing: bool,
}

impl View for AbilitySet {
    type V = Set<Ability>;

    open spec fn view(&self) -> Set<Ability> {
        Set::new(
            |a: Ability|
                match a {
                    Ability::HighJump => self.high_jump,
                    Ability::WallClimb => self.wall_climb,
                    Ability::Swing => self.swing,
                },
        )
    }
}

impl AbilitySet {
    pub fn new() -> (s: Self)
        ensures
            s@ == Set::<Ability>::empty(),
    {
        let s = Self { high_jump: false, wall_climb: false, swing: false };
        assert(s@ =~= Set::<Ability>::empty());
        s
    }

    pub fn has(&self, ability: Ability) -> (found: bool)
        ensures
            found == self@.contains(ability),
    {
        match ability {
            Ability::HighJump => self.high_jump,
            Ability::WallClimb => self.wall_climb,
            Ability::Swing => self.swing,
        }
    }

    pub fn add(&mut self, ability: Ability)
        ensures
            final(self)@ == old(self)@.insert(ability),
    {
        match ability {
            Ability::HighJump => {
                self.high_jump = true;
            },
            Ability::WallClimb => {
                self.wall_climb = true;
            },
            Ability::Swing => {
                self.swing = true;
            },
        }
        assert(self@ =~= old(self)@.insert(ability));
    }
}

impl Default for AbilitySet {
    fn default() -> (s: Self)
        ensures
            s@ == Set::<Ability>::empty(),
    {
        Self::new()
    }
}

impl vstd::std_specs::convert::FromSpecImpl<Vec<Ability>> for AbilitySet {
    open spec fn obeys_from_spec() -> bool {
        true
    }

    open spec fn from_spec(abilities: Vec<Ability>) -> AbilitySet {
        AbilitySet {
            high_jump: abilities@.contains(Ability::HighJump),
            wall_climb: abilities@.contains(Ability::WallClimb),
            swing: abilities@.contains(Ability::Swing),
        }
    }
}

impl From<Vec<Ability>> for AbilitySet {
    fn from(abilities: Vec<Ability>) -> (s: Self)
        ensures
            s@ == abilities@.to_set(),
    {
        let mut s = AbilitySet { high_jump: false, wall_climb: false, swing: false };
        let mut i: usize = 0;
        while i < abilities.len()
            invariant
                i <= abilities.len(),
                s.high_jump == abilities@.take(i as int).contains(Ability::HighJump),
                s.wall_climb == abilities@.take(i as int).contains(Ability::WallClimb),
                s.swing == abilities@.take(i as int).contains(Ability::Swing),
            decreases abilities.len() - i,
        {
            let ghost before = abilities@.take(i as int);
            let ghost after = abilities@.take(i as int + 1);
            assert(after =~= before.push(abilities@[i as int]));
            match abilities[i] {
                Ability::HighJump => {
                    s.high_jump = true;
                },
                Ability::WallClimb => {
                    s.wall_climb = true;
                },
                Ability::Swing => {
                    s.swing = true;
                },
            }
            assert(forall|a: Ability| after.contains(a) <==> (before.contains(a) || a == abilities@[i as int])) by {
                assert forall|a: Ability| after.contains(a) implies (before.contains(a) || a == abilities@[i as int]) by {
                    let k = choose|k: int| 0 <= k < after.len() && after[k] == a;
                    if k < i {
                        assert(before[k] == a);
                    }
                }
                assert forall|a: Ability| (before.contains(a) || a == abilities@[i as int]) implies after.contains(a) by {
                    if before.contains(a) {
                        let k = choose|k: int| 0 <= k < before.len() && before[k] == a;
                        assert(after[k] == a);
                    } else {
                        assert(after[i as int] == a);
                    }
                }
            }
            i += 1;
        }
        assert(abilities@.take(i as int) =~= abilities@);
        assert(s@ =~= abilities@.to_set());
        s
    }
}

/// An active rope attachment: the anchor, the fixed rope length and the
/// angular velocity in thousandths of a radian per second.
#[derive(Clone, Copy, Debug, PartialEq, Eq, Structural)]
pub struct SwingState {
    pub anchor_point: Vec2,
    pub rope_length: i32,
    pub angular_velocity: i32,
}

impl SwingState {
    /// A rope always has positive length.
    pub open spec fn wf(self) -> bool {
        self.rope_length > 0
    }
}

/// A point that a rope can be attached to, within `range` of it.
#[derive(Clone, Copy, Debug, PartialEq, Eq, Structural)]
pub struct SwingPoint {
    pub range: i32,
}

/// Whether an entity clings to a wall, and the normal of the adjacent wall
/// (zero when no wall is adjacent; otherwise it points away from the wall).
#[derive(Clone, Copy, Debug, PartialEq, Eq, Structural)]
pub struct WallClimbState {
    pub is_clinging: bool,
    pub wall_normal: Vec2,
}

impl Default for WallClimbState {
    fn default() -> (w: Self)
        ensures
            w == (WallClimbState { is_clinging: false, wall_normal: Vec2::spec_zero() }),
    {
        Self { is_clinging: false, wall_normal: Vec2 { x: 0, y: 0 } }
    }
}

/// The running animation: its kind, frame index and timer in milliseconds.
#[derive(Clone, Copy, Debug, PartialEq, Eq, Structural)]
pub struct AnimationState {
    pub current: AnimationType,
    pub frame: usize,
    pub timer: i32,
}

impl Default for AnimationState {
    fn default() -> (a: Self)
        ensures
            a == (AnimationState { current: AnimationType::Idle, frame: 0, timer: 0 }),
    {
        Self { current: AnimationType::Idle, frame: 0, timer: 0 }
    }
}

/// What the player asks for during one step.
#[derive(Clone, Copy, Debug, PartialEq, Eq, Structural)]
pub struct PlayerIntent {
    pub move_left: bool,
    pub move_right: bool,
    pub jump_pressed: bool,
    pub jump_just_released: bool,
}

impl Default for PlayerIntent {
    fn default() -> (i: Self)
        ensures
            i == (PlayerIntent {
                move_left: false,
                move_right: false,
                jump_pressed: false,
                jump_just_released: false,
            }),
    {
        Self { move_left: false, move_right: false, jump_pressed: false, jump_just_released: false }
    }
}

/// A static axis-aligned rectangle of the level, in thousandths of a pixel.
#[derive(Clone, Copy, Debug, PartialEq, Eq, Structural)]
pub struct LevelGeometry {
    pub x: i32,
    pub y: i32,
    pub width: i32,
    pub height: i32,
}

/// A collectible that unlocks an ability.
#[derive(Clone, Copy, Debug, PartialEq, Eq, Structural)]
pub struct PowerUp {
    pub ability: Ability,
}

} // verus!
