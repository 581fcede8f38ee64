//! Move-submission core for a turn-based card game service.
//!
//! The library decodes a player's proposed play from an untrusted wire
//! encoding into a validated hand of cards, and drives a single atomic
//! load / authorize-turn / apply / persist transition against the round
//! store and the game engine, which the surrounding application supplies.

pub mod cards;
pub mod hand;
pub mod orchestrator;
pub mod policy;
pub mod round;
