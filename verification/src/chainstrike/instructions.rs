//! The instructions of the Chainstrike program, as functions on the game state.

pub mod explode;
pub mod make_move;
