//! The vault that holds the tickets paid for games.

use vstd::prelude::*;
use crate::address::{Address, find_program_address, program_address};
use crate::kamikazejoe::ids::program_id;

verus! {

/// The vault account; it holds lamports and no data.
#[derive(Clone, Copy, Debug)]
pub struct Vault {}

impl Default for Vault {
    fn default() -> (r: Vault) {
        Vault {}
    }
}

impl Vault {
    /// Bytes the vault account takes: its discriminator.
    pub fn size() -> (r: usize)
        ensures
            r == 8,
    {
        8
    }

    /// The address of the vault, derived from the single seed `seed`.
    pub fn pda(seed: &[u8]) -> (r: (Address, u8))
        requires
            seed@.len() <= 32,
        ensures
            (r.0@, r.1) == program_address(seq![seed@], program_id()),
    {
        let mut seeds: Vec<Vec<u8>> = Vec::new();
        seeds.push(vstd::slice::slice_to_vec(seed));
        assert(seeds@.map_values(|s: Vec<u8>| s@) =~= seq![seed@]);
        find_program_address(&seeds, &crate::kamikazejoe::ids::id())
    }
}

} // verus!
