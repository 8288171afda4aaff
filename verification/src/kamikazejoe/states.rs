//! The accounts of the Kamikaze Joe program.

pub mod game;
pub mod leaderboard;
pub mod matches;
pub mod user;
pub mod vault;
