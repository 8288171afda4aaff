//! The account of one player across games.

use vstd::prelude::*;
use crate::address::{Address, find_program_address, program_address};
use crate::kamikazejoe::ids::program_id;

verus! {

/// Bytes a user takes, without the account discriminator: authority,
/// games and wins.
pub const USER_SPACE: usize = 32 + 4 + 4;

/// A player's account: who owns it, how many games it joined or created,
/// and how many prizes it won.
#[derive(Clone, Copy, Debug)]
pub struct User {
    pub authority: Address,
    pub games: u32,
    pub won: u32,
}

impl Default for User {
    fn default() -> (r: User)
        ensures
            r.authority@ == Seq::new(32, |i: int| 0u8),
            r.games == 0,
            r.won == 0,
    {
        User { authority: Address::zero(), games: 0, won: 0 }
    }
}

impl User {
    /// Bytes the user account takes, its discriminator included.
    pub fn size() -> (r: usize)
        ensures
            r == 8 + USER_SPACE,
            r == 48,
    {
        8 + USER_SPACE
    }

    /// The address of the user account of `owner`, derived from the seeds
    /// `seed` and `owner`.
    pub fn pda(seed: &[u8], owner: &Address) -> (r: (Address, u8))
        requires
            seed@.len() <= 32,
        ensures
            (r.0@, r.1) == program_address(seq![seed@, owner@], program_id()),
    {
        let mut seeds: Vec<Vec<u8>> = Vec::new();
        seeds.push(vstd::slice::slice_to_vec(seed));
        seeds.push(owner.to_vec());
        assert(seeds@.map_values(|s: Vec<u8>| s@) =~= seq![seed@, owner@]);
        find_program_address(&seeds, &crate::kamikazejoe::ids::id())
    }

    /// Counts one more game.
    pub fn increment_games(&mut self)
        requires
            old(self).games < u32::MAX,
        ensures
            final(self).games == old(self).games + 1,
            final(self).authority == old(self).authority,
            final(self).won == old(self).won,
    {
        self.games += 1;
    }
}

} // verus!
