//! Exploding: a player blows up, draining every other player in its cell and
//! the eight cells around it. A kill refills the exploder's energy; the
//! explosion then costs energy, and may end the game.

use vstd::prelude::*;
use crate::address::{Address, program_address};
use crate::arena::{blast, blast_hits, blasted_players, lemma_first_index_from, player_index, saturating_sub, with_energy};
use solana_program::program_error::ProgramError;
use crate::kamikazejoe::checks::{SessionToken, check_session_token_at, clock_for, session_precheck, session_verdict};
use crate::kamikazejoe::errors::{InstructionError, KamikazeJoeError};
use crate::kamikazejoe::ids::{id, program_id};
use crate::kamikazejoe::states::game::{Game, Player, win_check};
use crate::kamikazejoe::states::user::User;

verus! {

/// Energy an explosion costs.
pub const ENERGY_TO_EXPLODE: u8 = 20;

/// Energy an exploder holds, before paying, after its blast drained someone.
pub const KILL_ENERGY: u8 = 100;

/// The players after player `i` explodes in a `w` x `h` arena: the others
/// in its blast are drained; the exploder's energy is refilled if the blast
/// reached someone, then reduced by `ENERGY_TO_EXPLODE`, down to 0.
pub open spec fn exploded_players(players: Seq<Player>, i: int, w: int, h: int) -> Seq<Player> {
    let before = if blast_hits(players, i, w, h) {
        KILL_ENERGY
    } else {
        players[i].energy
    };
    blasted_players(players, i, w, h).update(
        i,
        with_energy(players[i], saturating_sub(before, ENERGY_TO_EXPLODE)),
    )
}

/// Whether `after` is `g` after player `i` exploded: players as
/// `exploded_players`, then the win check for `i`; the rest unchanged.
pub open spec fn exploded(g: Game, after: Game, i: int) -> bool {
    let players = exploded_players(g.players@, i, g.width as int, g.height as int);
    &&& after.players@ == players
    &&& after.game_state == win_check(g.game_state, players, i)
    &&& after.id == g.id
    &&& after.width == g.width
    &&& after.height == g.height
    &&& after.seed == g.seed
    &&& after.ticket_price == g.ticket_price
    &&& after.prize_claimed == g.prize_claimed
    &&& after.owner == g.owner
}

/// The error the explosion of the player with address `who` gives, once
/// the signer is authorized, if any.
pub open spec fn explode_error(g: Game, who: Seq<u8>) -> Option<KamikazeJoeError> {
    if !g.active() {
        Some(KamikazeJoeError::GameEnded)
    } else {
        match player_index(g.players@, who) {
            None => Some(KamikazeJoeError::PlayerNotFound),
            Some(i) => if g.players@[i].energy == 0 {
                Some(KamikazeJoeError::NotValidEnergy)
            } else {
                None
            },
        }
    }
}

/// The outcome of the explosion of player `who` once the signer is
/// authorized: `after` and `r` are what the game and the result become.
pub open spec fn explosion_outcome(g: Game, after: Game, who: Seq<u8>, r: Result<(), InstructionError>) -> bool {
    match explode_error(g, who) {
        Some(e) => (r matches Err(f) && f == InstructionError::Program(e)) && after == g,
        None => r is Ok && exploded(g, after, player_index(g.players@, who)->0),
    }
}

/// Whether `after` and `r` are the outcome of the explosion of the player
/// who owns `user`, signed by `payer`, when reading the clock gave `now`:
/// the user account's address is checked first, then the session, then the
/// game and the player.
pub open spec fn explode_outcome_at(
    g: Game,
    after: Game,
    user_key: Address,
    user: User,
    payer: Address,
    session_token: Option<SessionToken>,
    user_seed: Seq<u8>,
    now: Result<i64, ProgramError>,
    r: Result<(), InstructionError>,
) -> bool {
    if program_address(seq![user_seed, user.authority@], program_id()).0 != user_key@ {
        r == Err::<(), InstructionError>(InstructionError::Program(KamikazeJoeError::InvalidAuthority))
            && after == g
    } else {
        match session_verdict(session_token, payer@, user.authority@, program_id(), now) {
            Err(e) => r == Err::<(), InstructionError>(e) && after == g,
            Ok(()) => explosion_outcome(g, after, user.authority@, r),
        }
    }
}

/// The explosion of `handler`, with `now` as what reading the clock gave.
pub fn handler_at(
    game: &mut Game,
    user_key: &Address,
    user: &User,
    payer: &Address,
    session_token: Option<SessionToken>,
    user_seed: &[u8],
    now: Result<i64, ProgramError>,
) -> (r: Result<(), InstructionError>)
    requires
        user_seed@.len() <= 32,
    ensures
        explode_outcome_at(
            *old(game),
            *final(game),
            *user_key,
            *user,
            *payer,
            session_token,
            user_seed@,
            now,
            r,
        ),
{
    let player_key = user.authority;
    let (expected_user, _) = User::pda(user_seed, &user.authority);
    if !user_key.same(&expected_user) {
        return Err(InstructionError::Program(KamikazeJoeError::InvalidAuthority));
    }
    check_session_token_at(session_token, payer, &user.authority, &id(), now)?;
    if !game.is_game_active() {
        return Err(InstructionError::Program(KamikazeJoeError::GameEnded));
    }
    let player_index = match game.get_player_index(player_key) {
        Ok(value) => value,
        Err(error) => return Err(InstructionError::Program(error)),
    };
    proof {
        lemma_first_index_from(game.players@, player_key@, 0);
    }
    match explode(game, player_index) {
        Ok(()) => Ok(()),
        Err(error) => Err(InstructionError::Program(error)),
    }
}

/// The player who owns `user` explodes, signed by `payer` directly or
/// through `session_token`, whose expiry is judged by the cluster's clock.
/// `user_key` is the address of the user account, which must be derived
/// from `user_seed` and the user's authority.
pub fn handler(
    game: &mut Game,
    user_key: &Address,
    user: &User,
    payer: &Address,
    session_token: Option<SessionToken>,
    user_seed: &[u8],
) -> (r: Result<(), InstructionError>)
    requires
        user_seed@.len() <= 32,
    ensures
        exists|now: Result<i64, ProgramError>|
            #[trigger] explode_outcome_at(
                *old(game),
                *final(game),
                *user_key,
                *user,
                *payer,
                session_token,
                user_seed@,
                now,
                r,
            ),
        if program_address(seq![user_seed@, user.authority@], program_id()).0 != user_key@ {
            (r matches Err(f) && f == InstructionError::Program(KamikazeJoeError::InvalidAuthority))
                && *final(game) == *old(game)
        } else {
            match session_precheck(session_token, payer@, user.authority@, program_id()) {
                Some(e) => (r matches Err(f) && f == e) && *final(game) == *old(game),
                None => {
                    ||| (session_token is Some && *final(game) == *old(game) && (r matches Err(f) && (
                        f is InvalidSessionToken || f is Sysvar)))
                    ||| explosion_outcome(*old(game), *final(game), user.authority@, r)
                },
            }
        },
{
    let now = clock_for(session_token);
    handler_at(game, user_key, user, payer, session_token, user_seed, now)
}

/// The player at `player_index` explodes.
fn explode(game: &mut Game, player_index: usize) -> (r: Result<(), KamikazeJoeError>)
    requires
        player_index < old(game).players@.len(),
    ensures
        if old(game).players@[player_index as int].energy == 0 {
            r == Err::<(), KamikazeJoeError>(KamikazeJoeError::NotValidEnergy) && *final(game) == *old(game)
        } else {
            r is Ok && exploded(*old(game), *final(game), player_index as int)
        },
{
    if game.players[player_index].energy == 0 {
        return Err(KamikazeJoeError::NotValidEnergy);
    }
    let ghost g = *game;
    let width = game.width();
    let height = game.height();
    let killed = blast(&mut game.players, player_index, width, height);
    if killed == true {
        let p = game.players[player_index];
        game.players.set(
            player_index,
            Player { x: p.x, y: p.y, energy: KILL_ENERGY, address: p.address, facing: p.facing },
        );
    }
    game.reduce_energy(player_index, ENERGY_TO_EXPLODE);
    assert(game.players@ =~= exploded_players(g.players@, player_index as int, g.width as int, g.height as int));
    game.check_if_won(player_index);
    Ok(())
}

} // verus!
