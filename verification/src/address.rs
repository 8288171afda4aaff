//! Account addresses (32-byte public keys) and the derivation of
//! program addresses.

use vstd::prelude::*;
use solana_program::pubkey::Pubkey;

verus! {

/// A 32-byte account address.
#[derive(Clone, Copy, Debug)]
pub struct Address {
    pub bytes: [u8; 32],
}

impl View for Address {
    type V = Seq<u8>;

    open spec fn view(&self) -> Seq<u8> {
        self.bytes@
    }
}

impl Address {
    /// The address made of the given bytes.
    pub fn new(bytes: [u8; 32]) -> (r: Address)
        ensures
            r.bytes == bytes,
            r@ == bytes@,
    {
        Address { bytes }
    }

    /// The all-zero address.
    pub fn zero() -> (r: Address)
        ensures
            r@ == Seq::new(32, |i: int| 0u8),
    {
        let r = Address { bytes: [0u8; 32] };
        assert(r@ =~= Seq::new(32, |i: int| 0u8));
        r
    }

    /// The bytes of the address.
    pub fn to_vec(&self) -> (r: Vec<u8>)
        ensures
            r@ == self@,
    {
        vstd::slice::slice_to_vec(self.bytes.as_slice())
    }

    /// Whether two addresses hold the same bytes.
    pub fn same(&self, other: &Address) -> (r: bool)
        ensures
            r == (self@ == other@),
    {
        let mut i: usize = 0;
        while i < 32
            invariant
                i <= 32,
                self@.len() == 32,
                other@.len() == 32,
                forall|j: int| 0 <= j < i ==> self@[j] == other@[j],
            decreases 32 - i,
        {
            if self.bytes[i] != other.bytes[i] {
                return false;
            }
            i = i + 1;
        }
        assert(self@ =~= other@);
        true
    }
}

impl PartialEq for Address {
    fn eq(&self, other: &Address) -> (r: bool) {
        self.same(other)
    }
}

impl vstd::std_specs::cmp::PartialEqSpecImpl for Address {
    open spec fn obeys_eq_spec() -> bool {
        true
    }

    open spec fn eq_spec(&self, other: &Address) -> bool {
        self@ == other@
    }
}

impl Eq for Address {}

/// The program address derived from `seeds` under `program_id`, with its
/// bump seed, as the address derivation of the runtime computes it.
pub uninterp spec fn program_address(seeds: Seq<Seq<u8>>, program_id: Seq<u8>) -> (Seq<u8>, u8);

/// Derives a program address with `Pubkey::find_program_address` of
/// `solana_program`. The contract claims only that the result is a function
/// of the seeds and the program id (named `program_address`). The outside
/// function panics when there are 16 seeds or more or a seed is longer than
/// 32 bytes, which `requires` leaves out; it also panics when none of the
/// 256 bump seeds yields an address off the curve, an event of negligible
/// probability that nothing here rules out.
#[verifier::external_body]
pub(crate) fn find_program_address(seeds: &Vec<Vec<u8>>, program_id: &Address) -> (r: (Address, u8))
    requires
        seeds@.len() < 16,
        forall|i: int| 0 <= i < seeds@.len() ==> #[trigger] seeds@[i]@.len() <= 32,
    ensures
        (r.0@, r.1) == program_address(seeds@.map_values(|s: Vec<u8>| s@), program_id@),
{
    let slices: Vec<&[u8]> = seeds.iter().map(|s| s.as_slice()).collect();
    let (key, bump) = Pubkey::find_program_address(&slices, &Pubkey::new_from_array(program_id.bytes));
    (Address { bytes: key.to_bytes() }, bump)
}

} // verus!
