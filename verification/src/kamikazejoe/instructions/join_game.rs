//! Joining a game: the player takes a free cell and pays the ticket.

use vstd::prelude::*;
use crate::address::Address;
use crate::kamikazejoe::errors::KamikazeJoeError;
use crate::kamikazejoe::states::game::{Facing, Game, GameState, Player};
use crate::kamikazejoe::states::user::User;

verus! {

/// Energy a player joins with.
pub const JOIN_ENERGY: u8 = 100;

/// The player `who` as it joins on column `x`, row `y`.
pub open spec fn joining_player(who: Address, x: u8, y: u8) -> Player {
    Player { x: x, y: y, energy: JOIN_ENERGY, address: who, facing: Facing::Down }
}

/// The state once a player joined: a waiting game with more than one
/// player starts.
pub open spec fn state_after_join(state: GameState, players: nat) -> GameState {
    if state is Waiting && players > 1 {
        GameState::Active
    } else {
        state
    }
}

/// Player `who`, whose account is `user`, joins `game` on column `x`, row
/// `y`. On success the result is the ticket price to transfer from the
/// player to the vault, if the game charges one.
pub fn handler(game: &mut Game, user: &mut User, who: &Address, x: u8, y: u8) -> (r: Result<
    Option<u64>,
    KamikazeJoeError,
>)
    requires
        old(game).cell_defined(x as int, y as int),
        old(game).cell_valid(x as int, y as int) && !(old(game).game_state is Won) ==> old(
            user,
        ).games < u32::MAX,
    ensures
        if !old(game).cell_valid(x as int, y as int) {
            r == Err::<Option<u64>, KamikazeJoeError>(KamikazeJoeError::InvalidJoin) && *final(game)
                == *old(game) && *final(user) == *old(user)
        } else if old(game).game_state is Won {
            r == Err::<Option<u64>, KamikazeJoeError>(KamikazeJoeError::GameEnded) && *final(game)
                == *old(game) && *final(user) == *old(user)
        } else {
            &&& r == Ok::<Option<u64>, KamikazeJoeError>(
                if old(game).ticket_price > 0 {
                    Some(old(game).ticket_price)
                } else {
                    None
                },
            )
            &&& final(game).players@ == old(game).players@.push(joining_player(*who, x, y))
            &&& final(game).game_state == state_after_join(
                old(game).game_state,
                final(game).players@.len(),
            )
            &&& final(game).id == old(game).id
            &&& final(game).width == old(game).width
            &&& final(game).height == old(game).height
            &&& final(game).seed == old(game).seed
            &&& final(game).ticket_price == old(game).ticket_price
            &&& final(game).prize_claimed == old(game).prize_claimed
            &&& final(game).owner == old(game).owner
            &&& final(user).games == old(user).games + 1
            &&& final(user).authority == old(user).authority
            &&& final(user).won == old(user).won
        },
{
    if !game.is_cell_valid(x as usize, y as usize) {
        return Err(KamikazeJoeError::InvalidJoin);
    }
    if let GameState::Won { .. } = game.game_state {
        return Err(KamikazeJoeError::GameEnded);
    }
    game.players.push(Player { x, y, energy: JOIN_ENERGY, address: *who, facing: Facing::Down });
    if game.game_state == GameState::Waiting && game.players.len() > 1 {
        game.game_state = GameState::Active;
    }
    user.games += 1;
    if game.ticket_price > 0 {
        Ok(Some(game.ticket_price))
    } else {
        Ok(None)
    }
}

} // verus!
