//! Gameplay core of a scrolling shoot-'em-up: wave layouts, enemy
//! archetypes, cooldown timers, axis-aligned collision, and the state
//! machine that drives menu, play, game-over and victory screens.
//!
//! Positions and sizes are fixed-point, with `shared::UNIT` subunits per
//! world unit; `UNIT` is divisible by the tick rate, so every velocity of
//! the game, taken per fixed timestep, is an exact integer. Durations are
//! measured in milliseconds.

pub mod aliens;
pub mod game;
pub mod geometry;
pub mod hall_of_fame;
pub mod level;
pub mod player;
pub mod rng;
pub mod shared;
pub mod utils;
pub mod waves;
