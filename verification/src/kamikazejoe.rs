//! Kamikaze Joe: arenas generated from a seed, tickets paid into a vault
//! and a prize for the last player standing.

pub mod checks;
pub mod errors;
pub mod ids;
pub mod instructions;
pub mod properties;
pub mod states;
