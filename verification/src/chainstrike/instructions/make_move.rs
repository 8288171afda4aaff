//! Moving a player: the player spends energy to walk up to that many cells
//! in one direction, stopping before the first cell it may not enter.

use vstd::prelude::*;
use crate::address::Address;
use crate::arena::{find_player, lemma_first_index_from, player_index, saturating_sub};
use crate::chainstrike::errors::ChainstrikeError;
use crate::chainstrike::game::{Cell, Facing, Game, Player};

verus! {

/// Most energy one move may spend.
pub const MAX_MOVE_ENERGY: u8 = 5;

/// Energy a player holds after visiting a recharge chest.
pub const RECHARGED_ENERGY: u8 = 100;

/// The cell one step from column `x`, row `y` in direction `d`; `None` where
/// the step would leave the grid across row or column 0.
pub open spec fn step(x: int, y: int, d: Facing) -> Option<(int, int)> {
    match d {
        Facing::Down => if y == 0 {
            None
        } else {
            Some((x, y - 1))
        },
        Facing::Up => Some((x, y + 1)),
        Facing::Right => Some((x + 1, y)),
        Facing::Left => if x == 0 {
            None
        } else {
            Some((x - 1, y))
        },
    }
}

/// A walk of at most `steps` cells from column `x`, row `y` in direction `d`:
/// the walker enters cells while it may stand on them. The result is the
/// final column and row, whether a recharge chest was entered, and whether
/// at least one cell was entered.
pub open spec fn walk(g: Game, x: int, y: int, d: Facing, steps: nat) -> (int, int, bool, bool)
    decreases steps,
{
    if steps == 0 {
        (x, y, false, false)
    } else {
        match step(x, y, d) {
            Some((nx, ny)) => if g.cell_valid(nx, ny) {
                let w = walk(g, nx, ny, d, (steps - 1) as nat);
                (w.0, w.1, w.2 || g.cell(nx, ny) == Cell::Recharge, true)
            } else {
                (x, y, false, false)
            },
            None => (x, y, false, false),
        }
    }
}

/// The player after moving in direction `d` spending `energy`.
pub open spec fn moved_player(g: Game, p: Player, d: Facing, energy: u8) -> Player {
    let w = walk(g, p.x as int, p.y as int, d, energy as nat);
    let before = if w.2 {
        RECHARGED_ENERGY
    } else {
        p.energy
    };
    Player {
        x: w.0 as u8,
        y: w.1 as u8,
        energy: saturating_sub(before, energy),
        address: p.address,
        facing: d,
    }
}

/// The error a move of player `who` returns, if any, in the order the
/// checks are made.
pub open spec fn move_error(g: Game, who: Seq<u8>, d: Facing, energy: u8) -> Option<ChainstrikeError> {
    if !g.active() {
        Some(ChainstrikeError::GameEnded)
    } else {
        match player_index(g.players@, who) {
            None => Some(ChainstrikeError::PlayerNotFound),
            Some(i) => {
                let p = g.players@[i];
                if energy > MAX_MOVE_ENERGY {
                    Some(ChainstrikeError::NotValidEnergy)
                } else if p.energy == 0 || energy > p.energy {
                    Some(ChainstrikeError::NotValidEnergy)
                } else if !walk(g, p.x as int, p.y as int, d, energy as nat).3 {
                    Some(ChainstrikeError::InvalidMovement)
                } else {
                    None
                }
            },
        }
    }
}

/// Whether the first step of the move would take a coordinate past 255,
/// which aborts the program.
pub open spec fn move_overflows(g: Game, who: Seq<u8>, d: Facing, energy: u8) -> bool {
    match player_index(g.players@, who) {
        Some(i) => {
            let p = g.players@[i];
            &&& g.active()
            &&& 1 <= energy <= MAX_MOVE_ENERGY
            &&& energy <= p.energy
            &&& ((d == Facing::Up && p.y == 255) || (d == Facing::Right && p.x == 255))
        },
        None => false,
    }
}

/// Moves player `who` in direction `direction`, spending `energy`.
pub fn handler(game: &mut Game, who: &Address, direction: Facing, energy: u8) -> (r: Result<
    (),
    ChainstrikeError,
>)
    requires
        !move_overflows(*old(game), who@, direction, energy),
    ensures
        match move_error(*old(game), who@, direction, energy) {
            Some(e) => r == Err::<(), ChainstrikeError>(e) && *final(game) == *old(game),
            None => {
                let i = player_index(old(game).players@, who@)->0;
                &&& r is Ok
                &&& final(game).players@ == old(game).players@.update(
                    i,
                    moved_player(*old(game), old(game).players@[i], direction, energy),
                )
                &&& final(game).cell_valid(
                    final(game).players@[i].x as int,
                    final(game).players@[i].y as int,
                )
                &&& final(game).created_at == old(game).created_at
                &&& final(game).owner == old(game).owner
                &&& final(game).grid == old(game).grid
                &&& final(game).game_state == old(game).game_state
            },
        },
{
    if !game.is_game_active() {
        return Err(ChainstrikeError::GameEnded);
    }
    let player_index = match find_player(&game.players, who) {
        Some(i) => i,
        None => {
            return Err(ChainstrikeError::PlayerNotFound);
        },
    };
    proof {
        lemma_first_index_from(game.players@, who@, 0);
    }
    if energy > MAX_MOVE_ENERGY {
        return Err(ChainstrikeError::NotValidEnergy);
    }
    move_player(game, player_index, direction, energy)
}

/// Moves the player at `player_index`: walks, then faces `direction` and
/// pays `energy`. A player needs at least the energy it spends.
pub fn move_player(game: &mut Game, player_index: usize, direction: Facing, energy: u8) -> (r: Result<
    (),
    ChainstrikeError,
>)
    requires
        player_index < old(game).players@.len(),
        1 <= energy <= old(game).players@[player_index as int].energy ==> (direction
            == Facing::Up ==> old(game).players@[player_index as int].y < 255) && (direction
            == Facing::Right ==> old(game).players@[player_index as int].x < 255),
    ensures
        ({
            let p = old(game).players@[player_index as int];
            if p.energy == 0 || energy > p.energy {
                r == Err::<(), ChainstrikeError>(ChainstrikeError::NotValidEnergy) && *final(game)
                    == *old(game)
            } else if !walk(*old(game), p.x as int, p.y as int, direction, energy as nat).3 {
                r == Err::<(), ChainstrikeError>(ChainstrikeError::InvalidMovement) && *final(game)
                    == *old(game)
            } else {
                &&& r is Ok
                &&& final(game).players@ == old(game).players@.update(
                    player_index as int,
                    moved_player(*old(game), p, direction, energy),
                )
                &&& final(game).cell_valid(
                    final(game).players@[player_index as int].x as int,
                    final(game).players@[player_index as int].y as int,
                )
                &&& final(game).created_at == old(game).created_at
                &&& final(game).owner == old(game).owner
                &&& final(game).grid == old(game).grid
                &&& final(game).game_state == old(game).game_state
            }
        }),
{
    let p = game.players[player_index];
    if p.energy == 0 || energy > p.energy {
        return Err(ChainstrikeError::NotValidEnergy);
    }
    let ghost g = *game;
    let mut final_x = p.x;
    let mut final_y = p.y;
    let mut is_valid = false;
    let mut recharged = false;
    let mut k: u8 = 0;
    while k < energy
        invariant
            k <= energy,
            *game == g,
            p == g.players@[player_index as int],
            energy > 0 ==> (direction == Facing::Up ==> p.y < 255) && (direction == Facing::Right
                ==> p.x < 255),
            is_valid ==> final_x < 28 && final_y < 28,
            !is_valid ==> final_x == p.x && final_y == p.y,
            ({
                let w = walk(g, final_x as int, final_y as int, direction, (energy - k) as nat);
                walk(g, p.x as int, p.y as int, direction, energy as nat) == (
                    w.0,
                    w.1,
                    recharged || w.2,
                    is_valid || w.3,
                )
            }),
        ensures
            walk(g, final_x as int, final_y as int, direction, (energy - k) as nat) == (
                final_x as int,
                final_y as int,
                false,
                false,
            ),
            walk(g, p.x as int, p.y as int, direction, energy as nat) == (
                final_x as int,
                final_y as int,
                recharged,
                is_valid,
            ),
            is_valid ==> final_x < 28 && final_y < 28,
        decreases energy - k,
    {
        let x: u8;
        let y: u8;
        match direction {
            Facing::Down => {
                if final_y == 0 {
                    break ;
                }
                x = final_x;
                y = final_y - 1;
            },
            Facing::Up => {
                x = final_x;
                y = final_y + 1;
            },
            Facing::Right => {
                x = final_x + 1;
                y = final_y;
            },
            Facing::Left => {
                if final_x == 0 {
                    break ;
                }
                x = final_x - 1;
                y = final_y;
            },
        }
        if game.is_cell_valid(x as usize, y as usize) {
            if game.is_recharge(x as usize, y as usize) {
                recharged = true;
            }
            final_x = x;
            final_y = y;
            is_valid = true;
        } else {
            break ;
        }
        k = k + 1;
    }
    if !is_valid {
        return Err(ChainstrikeError::InvalidMovement);
    }
    let before = if recharged {
        RECHARGED_ENERGY
    } else {
        p.energy
    };
    let after = if energy > before {
        0
    } else {
        before - energy
    };
    let moved = Player { x: final_x, y: final_y, energy: after, address: p.address, facing: direction };
    game.players.set(player_index, moved);
    proof {
        crate::chainstrike::properties::walk_stays_on_its_ray(g, p.x as int, p.y as int, direction, energy as nat);
    }
    Ok(())
}

} // verus!
