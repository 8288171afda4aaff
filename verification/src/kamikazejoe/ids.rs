//! Addresses of the programs Kamikaze Joe deals with.

use vstd::prelude::*;
use crate::address::Address;

verus! {

/// The bytes of this program's address,
/// `JoeXD3mj5VXB2xKUz6jJ8D2AC72pXCydA6fnQJg2JiG`.
pub open spec fn program_id() -> Seq<u8> {
    seq![
        4u8, 143, 158, 26, 2, 209, 75, 196, 17, 160, 213, 68, 29, 195, 183, 164, 170, 102, 83,
        170, 143, 124, 45, 172, 163, 66, 171, 38, 42, 168, 68, 53,
    ]
}

/// This program's address.
pub fn id() -> (r: Address)
    ensures
        r@ == program_id(),
{
    let r = Address::new(
        [
            4u8, 143, 158, 26, 2, 209, 75, 196, 17, 160, 213, 68, 29, 195, 183, 164, 170, 102,
            83, 170, 143, 124, 45, 172, 163, 66, 171, 38, 42, 168, 68, 53,
        ],
    );
    assert(r@ =~= program_id());
    r
}

/// The bytes of the system program's address, `11111111111111111111111111111111`.
pub open spec fn system_program_bytes() -> Seq<u8> {
    Seq::new(32, |i: int| 0u8)
}

/// The system program's address, `solana_program::system_program::ID`. The
/// contract claims the value that the crate declares for it.
#[verifier::external_body]
pub(crate) fn system_program_id() -> (r: Address)
    ensures
        r@ == system_program_bytes(),
{
    Address { bytes: solana_program::system_program::ID.to_bytes() }
}

/// The bytes of the session program's address,
/// `3ao63wcSRNa76bncC2M3KupNtXBFiDyNbgK52VG7dLaE`.
pub open spec fn session_program_bytes() -> Seq<u8> {
    seq![
        38u8, 95, 166, 192, 234, 126, 248, 84, 132, 193, 30, 160, 169, 93, 123, 95, 194, 233,
        201, 4, 99, 251, 48, 37, 137, 139, 9, 13, 112, 228, 111, 19,
    ]
}

/// The session program's address, `gpl_session::id()`. The contract claims
/// the value that the crate declares for it.
#[verifier::external_body]
pub(crate) fn session_program_id() -> (r: Address)
    ensures
        r@ == session_program_bytes(),
{
    Address { bytes: gpl_session::id().to_bytes() }
}

/// The bytes of `"session_token"`, the first seed of a session token's address.
pub open spec fn session_seed_bytes() -> Seq<u8> {
    seq![115u8, 101, 115, 115, 105, 111, 110, 95, 116, 111, 107, 101, 110]
}

/// The first seed of a session token's address,
/// `gpl_session::SessionToken::SEED_PREFIX` as bytes. The contract claims
/// the value that the crate declares for it.
#[verifier::external_body]
pub(crate) fn session_seed_prefix() -> (r: Vec<u8>)
    ensures
        r@ == session_seed_bytes(),
{
    gpl_session::SessionToken::SEED_PREFIX.as_bytes().to_vec()
}

} // verus!
