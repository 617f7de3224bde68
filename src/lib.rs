//! The combat simulation of a small bullet-hell shooter: cooldown timers,
//! fixed-size bullet pools, collision and damage, death effects, and the game
//! state machine that decides when the simulation runs.
//!
//! Positions are whole units on an `i64` grid, saturating at its edges, with
//! `y` growing downwards; time is in nanoseconds. Rendering, input polling and
//! reading the configuration script are left to the host.
use vstd::prelude::*;

pub mod entity;
pub mod game;
pub mod health;
pub mod physics;
pub mod spell;
pub mod timer;

verus! {

} // verus!
