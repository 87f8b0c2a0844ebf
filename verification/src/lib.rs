//! Deterministic fixed-point movement and collision rules for a 2D platformer.
//!
//! Every length, speed, angle and factor is an integer count of thousandths
//! (see [`fixed::ONE`]), and elapsed time is an integer count of microseconds,
//! so that a run is reproducible bit for bit on every machine. The y axis
//! points down: a falling entity has positive vertical velocity.

#![allow(unused_imports)]

pub mod ability;
pub mod animation;
pub mod camera;
pub mod checkpoint;
pub mod components;
pub mod enums;
pub mod fixed;
pub mod level;
pub mod physics;
pub mod player;
pub mod simulation;
pub mod swing;
