//! The account that links the game to its leaderboard on the scoring program.

use vstd::prelude::*;
use crate::address::{Address, find_program_address, program_address};
use crate::kamikazejoe::ids::program_id;

verus! {

/// Bytes a leaderboard takes, without the account discriminator.
pub const LEADERBOARD_SPACE: usize = 32 + 32 + 32;

/// The scoring program's game, leaderboard and top entries accounts.
#[derive(Clone, Copy, Debug)]
pub struct Leaderboard {
    pub game: Address,
    pub leaderboard: Address,
    pub top_entries: Address,
}

impl Default for Leaderboard {
    fn default() -> (r: Leaderboard)
        ensures
            r.game@ == Seq::new(32, |i: int| 0u8),
            r.leaderboard@ == Seq::new(32, |i: int| 0u8),
            r.top_entries@ == Seq::new(32, |i: int| 0u8),
    {
        Leaderboard { game: Address::zero(), leaderboard: Address::zero(), top_entries: Address::zero() }
    }
}

impl Leaderboard {
    /// Bytes the leaderboard account takes, its discriminator included.
    pub fn size() -> (r: usize)
        ensures
            r == 8 + LEADERBOARD_SPACE,
            r == 104,
    {
        8 + LEADERBOARD_SPACE
    }

    /// The address of the leaderboard account, derived from the single seed `seed`.
    pub fn pda(seed: &[u8]) -> (r: (Address, u8))
        requires
            seed@.len() <= 32,
        ensures
            (r.0@, r.1) == program_address(seq![seed@], program_id()),
    {
        let mut seeds: Vec<Vec<u8>> = Vec::new();
        seeds.push(vstd::slice::slice_to_vec(seed));
        assert(seeds@.map_values(|s: Vec<u8>| s@) =~= seq![seed@]);
        find_program_address(&seeds, &crate::kamikazejoe::ids::id())
    }
}

} // verus!
