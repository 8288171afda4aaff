//! The list of the most recently created games.

use vstd::prelude::*;
use crate::address::{Address, find_program_address, program_address};
use crate::kamikazejoe::ids::program_id;

verus! {

/// How many games the list keeps.
pub const MAX_GAMES: usize = 10;

/// Bytes the list takes, without the account discriminator.
pub const MATCHES_SPACE: usize = 4 + 32 * MAX_GAMES;

/// The addresses of the most recently created games, oldest first.
#[derive(Clone, Debug)]
pub struct Matches {
    pub active_games: Vec<Address>,
}

/// The list after registering `game`: the oldest entry leaves once the list
/// holds `MAX_GAMES`, and `game` comes last.
pub open spec fn registered(games: Seq<Address>, game: Address) -> Seq<Address> {
    if games.len() >= MAX_GAMES {
        games.drop_first().push(game)
    } else {
        games.push(game)
    }
}

impl Default for Matches {
    fn default() -> (r: Matches)
        ensures
            r.active_games@.len() == 0,
    {
        Matches { active_games: Vec::new() }
    }
}

impl Matches {
    /// Bytes the list account takes, its discriminator included.
    pub fn size() -> (r: usize)
        ensures
            r == 8 + MATCHES_SPACE,
            r == 332,
    {
        8 + MATCHES_SPACE
    }

    /// The address of the list, derived from the single seed `seed`.
    pub fn pda(seed: &[u8]) -> (r: (Address, u8))
        requires
            seed@.len() <= 32,
        ensures
            (r.0@, r.1) == program_address(seq![seed@], program_id()),
    {
        let mut seeds: Vec<Vec<u8>> = Vec::new();
        seeds.push(vstd::slice::slice_to_vec(seed));
        assert(seeds@.map_values(|s: Vec<u8>| s@) =~= seq![seed@]);
        find_program_address(&seeds, &crate::kamikazejoe::ids::id())
    }

    /// Appends `game`, dropping the oldest game once the list is full.
    pub fn register_game(&mut self, game: Address)
        ensures
            final(self).active_games@ == registered(old(self).active_games@, game),
    {
        if self.active_games.len() >= MAX_GAMES {
            self.active_games.remove(0);
        }
        self.active_games.push(game);
    }
}

} // verus!
