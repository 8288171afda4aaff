//! Verified game logic of two on-chain arena games, Chainstrike and
//! Kamikaze Joe. Players stand on a grid, spend energy to move and may
//! blow themselves up to take out every player around them.
//!
//! Each instruction is a function from the accounts it reads to what it
//! writes. An instruction that fails leaves its accounts as they were, as a
//! failed transaction does. Inputs on which the program would abort the
//! transaction (an arithmetic overflow, say) are left out by `requires`.

pub mod address;
pub mod arena;
pub mod chainstrike;
pub mod kamikazejoe;
