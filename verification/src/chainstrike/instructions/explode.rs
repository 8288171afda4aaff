//! Exploding: a player blows up, draining every other player in its cell and
//! the eight cells around it, and pays energy for it.

use vstd::prelude::*;
use crate::address::Address;
use crate::chainstrike::errors::ChainstrikeError;
use crate::arena::{
    blast,
    blasted_players,
    find_player,
    lemma_first_index_from,
    player_index,
    saturating_sub,
    with_energy,
};
use crate::chainstrike::game::{GRID_SIDE, Game, Player};

verus! {

/// Energy an explosion costs.
pub const ENERGY_TO_EXPLODE: u8 = 20;

/// The players after player `i` explodes: the others in its blast are
/// drained, and the exploder pays `ENERGY_TO_EXPLODE`, down to 0.
pub open spec fn exploded_players(players: Seq<Player>, i: int) -> Seq<Player> {
    blasted_players(players, i, GRID_SIDE as int, GRID_SIDE as int).update(
        i,
        with_energy(players[i], saturating_sub(players[i].energy, ENERGY_TO_EXPLODE)),
    )
}

/// The error an explosion of player `who` returns, if any.
pub open spec fn explode_error(g: Game, who: Seq<u8>) -> Option<ChainstrikeError> {
    if !g.active() {
        Some(ChainstrikeError::GameEnded)
    } else {
        match player_index(g.players@, who) {
            None => Some(ChainstrikeError::PlayerNotFound),
            Some(i) => if g.players@[i].energy == 0 {
                Some(ChainstrikeError::NotValidEnergy)
            } else {
                None
            },
        }
    }
}

/// Player `who` explodes.
pub fn handler(game: &mut Game, who: &Address) -> (r: Result<(), ChainstrikeError>)
    ensures
        match explode_error(*old(game), who@) {
            Some(e) => r == Err::<(), ChainstrikeError>(e) && *final(game) == *old(game),
            None => {
                &&& r is Ok
                &&& final(game).players@ == exploded_players(
                    old(game).players@,
                    player_index(old(game).players@, who@)->0,
                )
                &&& final(game).created_at == old(game).created_at
                &&& final(game).owner == old(game).owner
                &&& final(game).grid == old(game).grid
                &&& final(game).game_state == old(game).game_state
            },
        },
{
    if !game.is_game_active() {
        return Err(ChainstrikeError::GameEnded);
    }
    let player_index = match find_player(&game.players, who) {
        Some(i) => i,
        None => {
            return Err(ChainstrikeError::PlayerNotFound);
        },
    };
    proof {
        lemma_first_index_from(game.players@, who@, 0);
    }
    explode(game, player_index)
}

/// The player at `player_index` explodes.
fn explode(game: &mut Game, player_index: usize) -> (r: Result<(), ChainstrikeError>)
    requires
        player_index < old(game).players@.len(),
    ensures
        if old(game).players@[player_index as int].energy == 0 {
            r == Err::<(), ChainstrikeError>(ChainstrikeError::NotValidEnergy) && *final(game)
                == *old(game)
        } else {
            &&& r is Ok
            &&& final(game).players@ == exploded_players(old(game).players@, player_index as int)
            &&& final(game).created_at == old(game).created_at
            &&& final(game).owner == old(game).owner
            &&& final(game).grid == old(game).grid
            &&& final(game).game_state == old(game).game_state
        },
{
    let p = game.players[player_index];
    if p.energy == 0 {
        return Err(ChainstrikeError::NotValidEnergy);
    }
    let ghost before = game.players@;
    let width = game.width();
    let height = game.height();
    blast(&mut game.players, player_index, width, height);
    let after = if ENERGY_TO_EXPLODE > p.energy {
        0
    } else {
        p.energy - ENERGY_TO_EXPLODE
    };
    game.players.set(
        player_index,
        Player { x: p.x, y: p.y, energy: after, address: p.address, facing: p.facing },
    );
    assert(game.players@ =~= exploded_players(before, player_index as int));
    Ok(())
}

} // verus!
