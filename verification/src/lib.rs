//! Core engine of a round-based resource-management card game.
//!
//! The player repeatedly draws a hand of cards and plays one of them; each
//! card changes the running capital and the accumulated CO2 emission. A
//! pure reducer applies every action to an immutable game state, a growth
//! curve raises the survival expenses each round, and an ordered win/loss
//! policy decides when the playthrough ends.
//!
//! Monetary and emission quantities are fixed-point values counted in
//! hundredths of their unit, so that all arithmetic is exact.

pub mod card;
pub mod emission;
pub mod finance;
pub mod math;
pub mod state;
