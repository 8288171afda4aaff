//! Chainstrike: a fixed 28 x 28 arena where players move and explode.

pub mod errors;
pub mod game;
pub mod instructions;
pub mod properties;
