//! Checks on the accounts an instruction is given: expected addresses, and
//! the session tokens that let a session key act for a player.

use vstd::prelude::*;
use solana_program::clock::Clock;
use solana_program::program_error::ProgramError;
use solana_program::sysvar::Sysvar;
use crate::address::{Address, find_program_address, program_address};
use crate::kamikazejoe::errors::{InstructionError, KamikazeJoeError};
use crate::kamikazejoe::ids::{session_program_bytes, session_program_id, session_seed_bytes, session_seed_prefix};

verus! {

/// What the checks read of a session token account: its address, the
/// authority it acts for, and the time until which it is valid.
#[derive(Clone, Copy, Debug)]
pub struct SessionToken {
    pub key: Address,
    pub authority: Address,
    pub valid_until: i64,
}

/// Fails with `InvalidArgument` unless `actual_address` is `reference_address`.
/// `field_name` names the account for the program's log.
pub fn check_address(actual_address: &Address, reference_address: &Address, field_name: &str) -> (r:
    Result<(), InstructionError>)
    ensures
        r is Ok <==> actual_address@ == reference_address@,
        r matches Err(e) ==> e is InvalidArgument,
{
    if actual_address.same(reference_address) {
        Ok(())
    } else {
        Err(InstructionError::InvalidArgument)
    }
}

/// The address a session token of `authority`, signed by `session_signer`
/// for `target_program`, must have.
pub open spec fn session_token_address(target_program: Seq<u8>, session_signer: Seq<u8>, authority: Seq<u8>) -> Seq<u8> {
    program_address(
        seq![session_seed_bytes(), target_program, session_signer, authority],
        session_program_bytes(),
    ).0
}

/// The error the checks of `check_session_token` that do not read the
/// clock give, if any.
pub open spec fn session_precheck(
    token: Option<SessionToken>,
    local_payer: Seq<u8>,
    authority: Seq<u8>,
    target_program: Seq<u8>,
) -> Option<InstructionError> {
    match token {
        Some(t) => if authority != t.authority@ {
            Some(InstructionError::InvalidSessionToken)
        } else if session_token_address(target_program, local_payer, t.authority@) != t.key@ {
            Some(InstructionError::InvalidSessionToken)
        } else {
            None
        },
        None => if authority != local_payer {
            Some(InstructionError::Program(KamikazeJoeError::InvalidUser))
        } else {
            None
        },
    }
}

/// Reads the cluster time with `Clock::get` of `solana_program` and returns
/// its `unix_timestamp`. Nothing is claimed of the result: it depends on the
/// cluster, and off-chain the call fails.
#[verifier::external_body]
fn current_unix_timestamp() -> (r: Result<i64, ProgramError>) {
    Clock::get().map(|clock| clock.unix_timestamp)
}

/// The verdict on a session token valid until `valid_until`, given what
/// reading the clock gave: valid while the time is before `valid_until`.
pub open spec fn expiry_verdict(valid_until: i64, now: Result<i64, ProgramError>) -> Result<(), InstructionError> {
    match now {
        Ok(t) => if t >= valid_until {
            Err(InstructionError::InvalidSessionToken)
        } else {
            Ok(())
        },
        Err(e) => Err(InstructionError::Sysvar(e)),
    }
}

/// The verdict of the session checks, given what reading the clock gave:
/// the checks that do not read the clock first, then the token's expiry.
pub open spec fn session_verdict(
    token: Option<SessionToken>,
    local_payer: Seq<u8>,
    authority: Seq<u8>,
    target_program: Seq<u8>,
    now: Result<i64, ProgramError>,
) -> Result<(), InstructionError> {
    match session_precheck(token, local_payer, authority, target_program) {
        Some(e) => Err(e),
        None => match token {
            None => Ok(()),
            Some(t) => expiry_verdict(t.valid_until, now),
        },
    }
}

/// The verdict on a session token valid until `valid_until`, given what
/// reading the clock gave.
pub fn session_expiry(valid_until: i64, now: Result<i64, ProgramError>) -> (r: Result<(), InstructionError>)
    ensures
        r == expiry_verdict(valid_until, now),
{
    match now {
        Ok(t) => if t >= valid_until {
            Err(InstructionError::InvalidSessionToken)
        } else {
            Ok(())
        },
        Err(e) => Err(InstructionError::Sysvar(e)),
    }
}

/// The session checks of `check_session_token`, with `now` as what reading
/// the clock gave.
pub fn check_session_token_at(
    local_session_token: Option<SessionToken>,
    local_payer: &Address,
    authority: &Address,
    target_program: &Address,
    now: Result<i64, ProgramError>,
) -> (r: Result<(), InstructionError>)
    ensures
        r == session_verdict(local_session_token, local_payer@, authority@, target_program@, now),
{
    if let Some(session_token) = local_session_token {
        if !authority.same(&session_token.authority) {
            return Err(InstructionError::InvalidSessionToken);
        }
        let mut seeds: Vec<Vec<u8>> = Vec::new();
        seeds.push(session_seed_prefix());
        seeds.push(target_program.to_vec());
        seeds.push(local_payer.to_vec());
        seeds.push(session_token.authority.to_vec());
        let ghost expected = seq![session_seed_bytes(), target_program@, local_payer@, session_token.authority@];
        assert(seeds@.map_values(|s: Vec<u8>| s@) =~= expected);
        let (pda, _) = find_program_address(&seeds, &session_program_id());
        if !pda.same(&session_token.key) {
            return Err(InstructionError::InvalidSessionToken);
        }
        session_expiry(session_token.valid_until, now)
    } else {
        if !authority.same(local_payer) {
            return Err(InstructionError::Program(KamikazeJoeError::InvalidUser));
        }
        Ok(())
    }
}

/// Reads the clock when a token is given; what a call without a token
/// holds in its place is never looked at.
pub(crate) fn clock_for(local_session_token: Option<SessionToken>) -> (r: Result<i64, ProgramError>) {
    if local_session_token.is_some() {
        current_unix_timestamp()
    } else {
        Ok(0)
    }
}

/// Checks that the signer `local_payer` may act for `authority` in
/// `target_program`: either it is the authority itself, or it holds a
/// session token of the authority's, at the right address and not expired
/// at the time the cluster's clock gives.
pub fn check_session_token(
    local_session_token: Option<SessionToken>,
    local_payer: &Address,
    authority: &Address,
    target_program: &Address,
) -> (r: Result<(), InstructionError>)
    ensures
        exists|now: Result<i64, ProgramError>|
            r == #[trigger] session_verdict(local_session_token, local_payer@, authority@, target_program@, now),
        match session_precheck(local_session_token, local_payer@, authority@, target_program@) {
            Some(e) => r == Err::<(), InstructionError>(e),
            None => match local_session_token {
                None => r is Ok,
                Some(t) => r is Ok || (r matches Err(f) && (f is InvalidSessionToken || f is Sysvar)),
            },
        },
{
    let now = clock_for(local_session_token);
    check_session_token_at(local_session_token, local_payer, authority, target_program, now)
}

} // verus!
