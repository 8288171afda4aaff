//! Claiming the prize: the winner of a game, or the account it delegates
//! to, receives 90% of the tickets paid; the rest stays in the vault.

use vstd::prelude::*;
use crate::address::{Address, program_address};
use crate::kamikazejoe::checks::check_address;
use crate::kamikazejoe::errors::{InstructionError, KamikazeJoeError};
use crate::kamikazejoe::ids::{program_id, system_program_bytes, system_program_id};
use crate::kamikazejoe::states::game::Game;
use crate::kamikazejoe::states::user::User;

verus! {

/// An account's address and lamport balance.
#[derive(Clone, Copy, Debug)]
pub struct AccountBalance {
    pub key: Address,
    pub lamports: u64,
}

/// The lamports a successful claim moves from the vault to the receiver,
/// and the balances they leave.
#[derive(Clone, Copy, Debug)]
pub struct PrizeTransfer {
    pub receiver: Address,
    pub payout: u64,
    pub vault_lamports: u64,
    pub receiver_lamports: u64,
}

/// The account that receives the prize: the delegate if one is given, else
/// the payer.
pub open spec fn prize_receiver(payer: AccountBalance, receiver: Option<AccountBalance>) -> AccountBalance {
    match receiver {
        Some(d) => d,
        None => payer,
    }
}

/// The prize: 90% of the tickets of all players, rounded down.
pub open spec fn prize_payout(g: Game) -> int {
    (g.ticket_price * g.players@.len() * 9) / 10
}

/// Whether the claim passes every check on the accounts and the game:
/// `user_key` is the user account of its authority, a delegate belongs to
/// the authority, `system_program` is the system program, and the receiver
/// won the game.
pub open spec fn claim_checks_pass(
    g: Game,
    user_key: Address,
    user: User,
    payer: AccountBalance,
    receiver: Option<AccountBalance>,
    system_program: Address,
    user_seed: Seq<u8>,
) -> bool {
    &&& program_address(seq![user_seed, user.authority@], program_id()).0 == user_key@
    &&& (receiver matches Some(d) ==> user.authority@ == d.key@)
    &&& system_program@ == system_program_bytes()
    &&& g.claimable_by(prize_receiver(payer, receiver).key@)
}

/// Whether computing the prize stays in range; where it does not, the
/// program aborts.
pub open spec fn payout_fits(g: Game) -> bool {
    g.ticket_price * g.players@.len() * 9 <= u64::MAX
}

/// Whether counting the win and computing the prize stay in range; where
/// they do not, the program aborts.
pub open spec fn claim_fits(g: Game, user: User) -> bool {
    user.won < u32::MAX && payout_fits(g)
}

/// The error the checks on the accounts and the game give, if any, in the
/// order they are made.
pub open spec fn claim_check_error(
    g: Game,
    user_key: Address,
    user: User,
    payer: AccountBalance,
    receiver: Option<AccountBalance>,
    system_program: Address,
    user_seed: Seq<u8>,
) -> Option<InstructionError> {
    if program_address(seq![user_seed, user.authority@], program_id()).0 != user_key@ {
        Some(InstructionError::Program(KamikazeJoeError::InvalidAuthority))
    } else if receiver matches Some(d) && user.authority@ != d.key@ {
        Some(InstructionError::Program(KamikazeJoeError::InvalidAuthority))
    } else if system_program@ != system_program_bytes() {
        Some(InstructionError::InvalidArgument)
    } else if !g.claimable_by(prize_receiver(payer, receiver).key@) {
        Some(InstructionError::Program(KamikazeJoeError::InvalidClaim))
    } else {
        None
    }
}

/// The error a claim gives, if any, in the order the checks are made.
pub open spec fn claim_error(
    g: Game,
    user_key: Address,
    user: User,
    payer: AccountBalance,
    receiver: Option<AccountBalance>,
    system_program: Address,
    vault_lamports: u64,
    user_seed: Seq<u8>,
) -> Option<InstructionError> {
    let to = prize_receiver(payer, receiver);
    if claim_check_error(g, user_key, user, payer, receiver, system_program, user_seed) is Some {
        claim_check_error(g, user_key, user, payer, receiver, system_program, user_seed)
    } else if vault_lamports < prize_payout(g) {
        Some(InstructionError::Program(KamikazeJoeError::Overflow))
    } else if to.lamports + prize_payout(g) > u64::MAX {
        Some(InstructionError::Program(KamikazeJoeError::Overflow))
    } else {
        None
    }
}

/// Whether `r`, `game_after` and `user_after` are the outcome of the claim.
pub open spec fn claim_outcome(
    g: Game,
    user_key: Address,
    user: User,
    payer: AccountBalance,
    receiver: Option<AccountBalance>,
    system_program: Address,
    vault_lamports: u64,
    user_seed: Seq<u8>,
    r: Result<PrizeTransfer, InstructionError>,
    game_after: Game,
    user_after: User,
) -> bool {
    match claim_error(g, user_key, user, payer, receiver, system_program, vault_lamports, user_seed) {
        Some(e) => (r matches Err(f) && f == e) && game_after == g && user_after == user,
        None => {
            let to = prize_receiver(payer, receiver);
            &&& r matches Ok(t) && {
                &&& t.receiver == to.key
                &&& t.payout == prize_payout(g)
                &&& t.vault_lamports == vault_lamports - prize_payout(g)
                &&& t.receiver_lamports == to.lamports + prize_payout(g)
            }
            &&& game_after.prize_claimed
            &&& game_after.players == g.players
            &&& game_after.game_state == g.game_state
            &&& game_after.id == g.id
            &&& game_after.width == g.width
            &&& game_after.height == g.height
            &&& game_after.seed == g.seed
            &&& game_after.ticket_price == g.ticket_price
            &&& game_after.owner == g.owner
            &&& user_after.won == user.won + 1
            &&& user_after.games == user.games
            &&& user_after.authority == user.authority
        },
    }
}

/// The checks and the transfer both prize instructions share.
pub(crate) fn claim(
    game: &mut Game,
    user_key: &Address,
    user: &mut User,
    payer: &AccountBalance,
    receiver: Option<AccountBalance>,
    system_program: &Address,
    vault_lamports: u64,
    user_seed: &[u8],
) -> (r: Result<PrizeTransfer, InstructionError>)
    requires
        user_seed@.len() <= 32,
        claim_checks_pass(*old(game), *user_key, *old(user), *payer, receiver, *system_program, user_seed@)
            ==> claim_fits(*old(game), *old(user)),
    ensures
        claim_outcome(
            *old(game),
            *user_key,
            *old(user),
            *payer,
            receiver,
            *system_program,
            vault_lamports,
            user_seed@,
            r,
            *final(game),
            *final(user),
        ),
{
    let receiver_account = match claim_checks(game, user_key, user, payer, receiver, system_program, user_seed) {
        Ok(a) => a,
        Err(e) => return Err(e),
    };
    let pool = game.ticket_price * game.players.len() as u64;
    let payout = (pool * 9) / 10;
    let vault_after = match vault_lamports.checked_sub(payout) {
        Some(v) => v,
        None => return Err(InstructionError::Program(KamikazeJoeError::Overflow)),
    };
    let receiver_after = match receiver_account.lamports.checked_add(payout) {
        Some(v) => v,
        None => return Err(InstructionError::Program(KamikazeJoeError::Overflow)),
    };
    game.prize_claimed = true;
    user.won += 1;
    Ok(
        PrizeTransfer {
            receiver: receiver_account.key,
            payout,
            vault_lamports: vault_after,
            receiver_lamports: receiver_after,
        },
    )
}

/// Claims the prize of `game` for the winner: `payer` signs and receives
/// it, unless `receiver` is given, which must be the user's authority.
/// `user_key` is the address of the user account, which must be derived
/// from `user_seed` and the user's authority; `vault_lamports` is the
/// vault's balance. The result says what to transfer.
pub fn handler(
    game: &mut Game,
    user_key: &Address,
    user: &mut User,
    payer: &AccountBalance,
    receiver: Option<AccountBalance>,
    system_program: &Address,
    vault_lamports: u64,
    user_seed: &[u8],
) -> (r: Result<PrizeTransfer, InstructionError>)
    requires
        user_seed@.len() <= 32,
        claim_checks_pass(*old(game), *user_key, *old(user), *payer, receiver, *system_program, user_seed@)
            ==> claim_fits(*old(game), *old(user)),
    ensures
        claim_outcome(
            *old(game),
            *user_key,
            *old(user),
            *payer,
            receiver,
            *system_program,
            vault_lamports,
            user_seed@,
            r,
            *final(game),
            *final(user),
        ),
{
    claim(game, user_key, user, payer, receiver, system_program, vault_lamports, user_seed)
}

/// Whether the claim would run into a count or a prize out of range, which
/// aborts the program; and otherwise the claim's outcome. Returns `None`,
/// changing nothing, exactly where the claim would abort.
pub fn handler_checked(
    game: &mut Game,
    user_key: &Address,
    user: &mut User,
    payer: &AccountBalance,
    receiver: Option<AccountBalance>,
    system_program: &Address,
    vault_lamports: u64,
    user_seed: &[u8],
) -> (r: Option<Result<PrizeTransfer, InstructionError>>)
    requires
        user_seed@.len() <= 32,
    ensures
        match r {
            None => claim_checks_pass(*old(game), *user_key, *old(user), *payer, receiver, *system_program, user_seed@)
                && !claim_fits(*old(game), *old(user)) && *final(game) == *old(game) && *final(user) == *old(user),
            Some(res) => claim_outcome(
                *old(game),
                *user_key,
                *old(user),
                *payer,
                receiver,
                *system_program,
                vault_lamports,
                user_seed@,
                res,
                *final(game),
                *final(user),
            ),
        },
{
    if claim_would_abort(game, user_key, user, payer, receiver, system_program, user_seed) {
        return None;
    }
    Some(handler(game, user_key, user, payer, receiver, system_program, vault_lamports, user_seed))
}

/// Whether a claim passes its checks and then runs out of range.
pub(crate) fn claim_would_abort(
    game: &Game,
    user_key: &Address,
    user: &User,
    payer: &AccountBalance,
    receiver: Option<AccountBalance>,
    system_program: &Address,
    user_seed: &[u8],
) -> (r: bool)
    requires
        user_seed@.len() <= 32,
    ensures
        r == (claim_checks_pass(*game, *user_key, *user, *payer, receiver, *system_program, user_seed@)
            && !claim_fits(*game, *user)),
{
    claim_checks(game, user_key, user, payer, receiver, system_program, user_seed).is_ok() && (
    user.won == u32::MAX || payout_overflows(game))
}

/// Runs the checks on the accounts and the game, in the order the program
/// makes them, and gives the account that receives the prize, or the first
/// check's error.
pub(crate) fn claim_checks(
    game: &Game,
    user_key: &Address,
    user: &User,
    payer: &AccountBalance,
    receiver: Option<AccountBalance>,
    system_program: &Address,
    user_seed: &[u8],
) -> (r: Result<AccountBalance, InstructionError>)
    requires
        user_seed@.len() <= 32,
    ensures
        match claim_check_error(*game, *user_key, *user, *payer, receiver, *system_program, user_seed@) {
            Some(e) => r == Err::<AccountBalance, InstructionError>(e),
            None => r == Ok::<AccountBalance, InstructionError>(prize_receiver(*payer, receiver)),
        },
{
    let mut receiver_account = *payer;
    let (expected_user, _) = User::pda(user_seed, &user.authority);
    if !user_key.same(&expected_user) {
        return Err(InstructionError::Program(KamikazeJoeError::InvalidAuthority));
    }
    if let Some(destination) = receiver {
        if !user.authority.same(&destination.key) {
            return Err(InstructionError::Program(KamikazeJoeError::InvalidAuthority));
        }
        receiver_account = destination;
    }
    check_address(system_program, &system_program_id(), "system_program")?;
    if !game.can_claim(&receiver_account.key) {
        return Err(InstructionError::Program(KamikazeJoeError::InvalidClaim));
    }
    Ok(receiver_account)
}

/// Whether computing the prize of `game` runs out of range.
pub(crate) fn payout_overflows(game: &Game) -> (r: bool)
    ensures
        r == !payout_fits(*game),
{
    let len = game.players.len() as u64;
    match game.ticket_price.checked_mul(len) {
        None => true,
        Some(pool) => pool.checked_mul(9).is_none(),
    }
}

} // verus!
