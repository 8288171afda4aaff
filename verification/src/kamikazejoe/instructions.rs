//! The instructions of the Kamikaze Joe program, as functions on the
//! accounts they read and write.

pub mod claim_prize;
pub mod claim_prize_soar;
pub mod create_game;
pub mod create_matches;
pub mod explode;
pub mod initialize_leaderboard;
pub mod join_game;
