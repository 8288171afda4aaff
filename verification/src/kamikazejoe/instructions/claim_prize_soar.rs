//! Claiming the prize and reporting the win to the scoring program. The
//! instruction runs in two steps around the call to the scoring program:
//! `score_to_submit` checks the claim and gives the score to report, and
//! `handler` takes how the report went and settles the claim.

use vstd::prelude::*;
use crate::address::Address;
use crate::kamikazejoe::errors::InstructionError;
use crate::kamikazejoe::instructions::claim_prize::{
    AccountBalance,
    PrizeTransfer,
    claim,
    claim_check_error,
    claim_checks,
    claim_checks_pass,
    claim_outcome,
    payout_fits,
    payout_overflows,
};
use crate::kamikazejoe::states::game::Game;
use crate::kamikazejoe::states::user::User;

verus! {

/// A successful claim: the score reported to the leaderboard (the user's
/// number of wins, this one included), and the prize to transfer.
#[derive(Clone, Copy, Debug)]
pub struct ScoredClaim {
    pub score: u64,
    pub transfer: PrizeTransfer,
}

/// The plain claim's result within a scored claim's result.
pub open spec fn unscored(r: Result<ScoredClaim, InstructionError>) -> Result<PrizeTransfer, InstructionError> {
    match r {
        Ok(s) => Ok(s.transfer),
        Err(e) => Err(e),
    }
}

/// Whether `r`, `game_after` and `user_after` are the outcome of the scored
/// claim, given how reporting the score went: the checks on the accounts
/// and the game first, then the report, then the prize.
pub open spec fn scored_claim_outcome(
    g: Game,
    user_key: Address,
    user: User,
    payer: AccountBalance,
    receiver: Option<AccountBalance>,
    system_program: Address,
    vault_lamports: u64,
    user_seed: Seq<u8>,
    submitted: Result<(), InstructionError>,
    r: Result<ScoredClaim, InstructionError>,
    game_after: Game,
    user_after: User,
) -> bool {
    match claim_check_error(g, user_key, user, payer, receiver, system_program, user_seed) {
        Some(e) => r == Err::<ScoredClaim, InstructionError>(e) && game_after == g && user_after == user,
        None => match submitted {
            Err(e) => r == Err::<ScoredClaim, InstructionError>(e) && game_after == g && user_after
                == user,
            Ok(()) => {
                &&& claim_outcome(
                    g,
                    user_key,
                    user,
                    payer,
                    receiver,
                    system_program,
                    vault_lamports,
                    user_seed,
                    unscored(r),
                    game_after,
                    user_after,
                )
                &&& r matches Ok(s) ==> s.score == user_after.won
            },
        },
    }
}

/// Checks the claim on the accounts and the game and gives the score to
/// report to the scoring program: the user's wins, this one included.
pub fn score_to_submit(
    game: &Game,
    user_key: &Address,
    user: &User,
    payer: &AccountBalance,
    receiver: Option<AccountBalance>,
    system_program: &Address,
    user_seed: &[u8],
) -> (r: Result<u64, InstructionError>)
    requires
        user_seed@.len() <= 32,
    ensures
        match claim_check_error(*game, *user_key, *user, *payer, receiver, *system_program, user_seed@) {
            Some(e) => r == Err::<u64, InstructionError>(e),
            None => r == Ok::<u64, InstructionError>((user.won + 1) as u64),
        },
{
    match claim_checks(game, user_key, user, payer, receiver, system_program, user_seed) {
        Ok(_) => Ok(user.won as u64 + 1),
        Err(e) => Err(e),
    }
}

/// Settles the claim once the score has been reported: `submitted` is how
/// the report to the scoring program went. The checks on the accounts and
/// the game come first; a failed report is then the instruction's error;
/// otherwise the claim proceeds as `claim_prize::handler` does, and the
/// result carries the score reported.
pub fn handler(
    game: &mut Game,
    user_key: &Address,
    user: &mut User,
    payer: &AccountBalance,
    receiver: Option<AccountBalance>,
    system_program: &Address,
    vault_lamports: u64,
    user_seed: &[u8],
    submitted: Result<(), InstructionError>,
) -> (r: Result<ScoredClaim, InstructionError>)
    requires
        user_seed@.len() <= 32,
        claim_checks_pass(*old(game), *user_key, *old(user), *payer, receiver, *system_program, user_seed@)
            ==> old(user).won < u32::MAX && (submitted is Ok ==> payout_fits(*old(game))),
    ensures
        scored_claim_outcome(
            *old(game),
            *user_key,
            *old(user),
            *payer,
            receiver,
            *system_program,
            vault_lamports,
            user_seed@,
            submitted,
            r,
            *final(game),
            *final(user),
        ),
{
    if let Err(e) = claim_checks(game, user_key, user, payer, receiver, system_program, user_seed) {
        return Err(e);
    }
    if let Err(e) = submitted {
        return Err(e);
    }
    match claim(game, user_key, user, payer, receiver, system_program, vault_lamports, user_seed) {
        Ok(transfer) => Ok(ScoredClaim { score: user.won as u64, transfer }),
        Err(e) => Err(e),
    }
}

/// Whether settling the claim would run into a count or a prize out of
/// range, which aborts the program; and otherwise the scored claim's
/// outcome. Returns `None`, changing nothing, exactly where the claim would
/// abort: its checks pass and the count of wins is full, or the report
/// went through and the prize is out of range.
pub fn handler_checked(
    game: &mut Game,
    user_key: &Address,
    user: &mut User,
    payer: &AccountBalance,
    receiver: Option<AccountBalance>,
    system_program: &Address,
    vault_lamports: u64,
    user_seed: &[u8],
    submitted: Result<(), InstructionError>,
) -> (r: Option<Result<ScoredClaim, InstructionError>>)
    requires
        user_seed@.len() <= 32,
    ensures
        match r {
            None => {
                &&& claim_checks_pass(*old(game), *user_key, *old(user), *payer, receiver, *system_program, user_seed@)
                &&& (old(user).won == u32::MAX || (submitted is Ok && !payout_fits(*old(game))))
                &&& *final(game) == *old(game)
                &&& *final(user) == *old(user)
            },
            Some(res) => scored_claim_outcome(
                *old(game),
                *user_key,
                *old(user),
                *payer,
                receiver,
                *system_program,
                vault_lamports,
                user_seed@,
                submitted,
                res,
                *final(game),
                *final(user),
            ),
        },
{
    if claim_checks(game, user_key, user, payer, receiver, system_program, user_seed).is_ok() {
        if user.won == u32::MAX || (submitted.is_ok() && payout_overflows(game)) {
            return None;
        }
    }
    Some(handler(game, user_key, user, payer, receiver, system_program, vault_lamports, user_seed, submitted))
}

} // verus!
