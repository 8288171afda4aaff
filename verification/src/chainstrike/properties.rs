//! What holds of every move and every explosion in Chainstrike.

use vstd::prelude::*;
use crate::arena::{Facing, Player, in_blast, saturating_sub};
use crate::arena::{GameState, player_index};
use crate::chainstrike::errors::ChainstrikeError;
use crate::chainstrike::game::{Cell, Game};
use crate::chainstrike::instructions::explode::{ENERGY_TO_EXPLODE, exploded_players};
use crate::chainstrike::instructions::make_move::{RECHARGED_ENERGY, move_error, moved_player, walk};

verus! {

/// Whether (`x1`, `y1`) lies from (`x0`, `y0`) at most `n` cells in
/// direction `d`.
pub open spec fn on_ray(x0: int, y0: int, d: Facing, n: int, x1: int, y1: int) -> bool {
    match d {
        Facing::Up => x1 == x0 && y0 <= y1 <= y0 + n,
        Facing::Down => x1 == x0 && y0 - n <= y1 <= y0,
        Facing::Right => y1 == y0 && x0 <= x1 <= x0 + n,
        Facing::Left => y1 == y0 && x0 - n <= x1 <= x0,
    }
}

/// A walk of at most `n` cells ends on the ray of `n` cells in its
/// direction, on a cell a player may stand on; it ends elsewhere than it
/// started exactly when it entered a cell.
pub proof fn walk_stays_on_its_ray(g: Game, x: int, y: int, d: Facing, n: nat)
    ensures
        ({
            let w = walk(g, x, y, d, n);
            &&& on_ray(x, y, d, n as int, w.0, w.1)
            &&& w.3 <==> (w.0 != x || w.1 != y)
            &&& w.3 ==> g.cell_valid(w.0, w.1)
        }),
    decreases n,
{
    if n > 0 {
        match crate::chainstrike::instructions::make_move::step(x, y, d) {
            Some((nx, ny)) => {
                if g.cell_valid(nx, ny) {
                    walk_stays_on_its_ray(g, nx, ny, d, (n - 1) as nat);
                }
            },
            None => {},
        }
    }
}

/// A move moves the player along its direction by at most the energy
/// spent, onto a cell it may stand on, and turns it that way; it keeps its
/// address. Its energy then is what it had, or a full charge if it entered
/// a recharge chest, less the energy spent.
pub proof fn move_goes_at_most_energy_cells(g: Game, p: Player, d: Facing, energy: u8)
    ensures
        ({
            let q = moved_player(g, p, d, energy);
            let w = walk(g, p.x as int, p.y as int, d, energy as nat);
            &&& w.3 ==> on_ray(p.x as int, p.y as int, d, energy as int, q.x as int, q.y as int)
            &&& w.3 ==> g.cell_valid(q.x as int, q.y as int)
            &&& q.facing == d
            &&& q.address == p.address
            &&& !w.2 ==> q.energy == saturating_sub(p.energy, energy)
            &&& w.2 ==> q.energy == saturating_sub(RECHARGED_ENERGY, energy)
        }),
{
    walk_stays_on_its_ray(g, p.x as int, p.y as int, d, energy as nat);
}

/// An explosion drains every other player within one cell of the exploder,
/// leaves every player farther away as it was, moves nobody, and costs the
/// exploder `ENERGY_TO_EXPLODE`, down to 0.
pub proof fn explosion_drains_neighbours(players: Seq<Player>, i: int)
    requires
        0 <= i < players.len(),
    ensures
        ({
            let after = exploded_players(players, i);
            let p = players[i];
            &&& after.len() == players.len()
            &&& after[i].energy == saturating_sub(p.energy, ENERGY_TO_EXPLODE)
            &&& forall|j: int|
                0 <= j < players.len() ==> (#[trigger] after[j]).x == players[j].x && after[j].y
                    == players[j].y && after[j].address == players[j].address
            &&& forall|j: int|
                0 <= j < players.len() && j != i && in_blast(
                    28,
                    28,
                    p.x as int,
                    p.y as int,
                    players[j].x as int,
                    players[j].y as int,
                ) ==> (#[trigger] after[j]).energy == 0
            &&& forall|j: int|
                0 <= j < players.len() && j != i && !in_blast(
                    28,
                    28,
                    p.x as int,
                    p.y as int,
                    players[j].x as int,
                    players[j].y as int,
                ) ==> #[trigger] after[j] == players[j]
        }),
{
}

/// Whether every player of `g` stands on a cell a player may stand on.
pub open spec fn players_on_valid_cells(g: Game) -> bool {
    forall|j: int| 0 <= j < g.players@.len() ==> g.cell_valid(
        (#[trigger] g.players@[j]).x as int,
        g.players@[j].y as int,
    )
}

/// Moves keep every player on cells a player may stand on.
pub proof fn moves_keep_players_on_valid_cells(g: Game, after: Game, i: int, d: Facing, energy: u8)
    requires
        0 <= i < g.players@.len(),
        players_on_valid_cells(g),
        walk(g, g.players@[i].x as int, g.players@[i].y as int, d, energy as nat).3,
        after.players@ == g.players@.update(i, moved_player(g, g.players@[i], d, energy)),
        after.grid == g.grid,
    ensures
        players_on_valid_cells(after),
{
    walk_stays_on_its_ray(g, g.players@[i].x as int, g.players@[i].y as int, d, energy as nat);
    let w = walk(g, g.players@[i].x as int, g.players@[i].y as int, d, energy as nat);
    assert(0 <= w.0 < 28 && 0 <= w.1 < 28);
    assert forall|j: int| 0 <= j < after.players@.len() implies after.cell_valid(
        (#[trigger] after.players@[j]).x as int,
        after.players@[j].y as int,
    ) by {
        if j != i {
            assert(g.cell_valid(g.players@[j].x as int, g.players@[j].y as int));
        }
    }
}

/// Explosions move nobody, so they keep every player on cells a player may
/// stand on.
pub proof fn explosions_keep_players_on_valid_cells(g: Game, after: Game, i: int)
    requires
        0 <= i < g.players@.len(),
        players_on_valid_cells(g),
        after.players@ == exploded_players(g.players@, i),
        after.grid == g.grid,
    ensures
        players_on_valid_cells(after),
{
    assert forall|j: int| 0 <= j < after.players@.len() implies after.cell_valid(
        (#[trigger] after.players@[j]).x as int,
        after.players@[j].y as int,
    ) by {
        assert(g.cell_valid(g.players@[j].x as int, g.players@[j].y as int));
    }
}

/// The cell `k` cells from column `x`, row `y` in direction `d`; rows grow
/// upwards and columns to the right.
pub open spec fn cell_along(x: int, y: int, d: Facing, k: int) -> (int, int) {
    match d {
        Facing::Up => (x, y + k),
        Facing::Down => (x, y - k),
        Facing::Right => (x + k, y),
        Facing::Left => (x - k, y),
    }
}

/// Whether a player may enter the cell at column `x`, row `y`: it lies on
/// the 28 x 28 grid and holds no block.
pub open spec fn enterable(g: Game, c: (int, int)) -> bool {
    0 <= c.0 < 28 && 0 <= c.1 < 28 && g.grid.cells@[c.0]@[c.1] != Cell::Block
}

/// Whether a walk of `m` cells from (`x`, `y`) in direction `d` enters a
/// recharge chest, its last cell included.
pub open spec fn passes_chest(g: Game, x: int, y: int, d: Facing, m: int) -> bool {
    exists|k: int| 1 <= k <= m && #[trigger] g.grid.cells@[cell_along(x, y, d, k).0]@[cell_along(x, y, d, k).1] == Cell::Recharge
}

/// The number of cells a walk enters, with its properties: the walk enters
/// the first `m` cells of its direction, all enterable, and stops after `n`
/// cells or before the first cell it may not enter.
proof fn walk_length(g: Game, x: int, y: int, d: Facing, n: nat) -> (m: int)
    ensures
        0 <= m <= n,
        ({
            let w = walk(g, x, y, d, n);
            &&& (w.0, w.1) == cell_along(x, y, d, m)
            &&& w.3 <==> m > 0
            &&& w.2 <==> passes_chest(g, x, y, d, m)
        }),
        forall|k: int| 1 <= k <= m ==> enterable(g, #[trigger] cell_along(x, y, d, k)),
        m < n ==> !enterable(g, cell_along(x, y, d, m + 1)),
    decreases n,
{
    if n == 0 {
        return 0;
    }
    match crate::chainstrike::instructions::make_move::step(x, y, d) {
        Some((nx, ny)) => {
            if g.cell_valid(nx, ny) {
                let m1 = walk_length(g, nx, ny, d, (n - 1) as nat);
                assert(cell_along(x, y, d, 1) == (nx, ny));
                assert forall|k: int| 1 <= k <= m1 + 1 implies enterable(g, #[trigger] cell_along(x, y, d, k)) by {
                    if k > 1 {
                        assert(cell_along(x, y, d, k) == cell_along(nx, ny, d, k - 1));
                    }
                }
                assert(cell_along(x, y, d, m1 + 1) == cell_along(nx, ny, d, m1));
                assert(cell_along(x, y, d, m1 + 2) == cell_along(nx, ny, d, m1 + 1));
                let w = walk(g, x, y, d, n);
                if w.2 {
                    if g.cell(nx, ny) == Cell::Recharge {
                        assert(g.grid.cells@[cell_along(x, y, d, 1).0]@[cell_along(x, y, d, 1).1] == Cell::Recharge);
                    } else {
                        let k = choose|k: int| 1 <= k <= m1 && #[trigger] g.grid.cells@[cell_along(nx, ny, d, k).0]@[cell_along(nx, ny, d, k).1] == Cell::Recharge;
                        assert(cell_along(x, y, d, k + 1) == cell_along(nx, ny, d, k));
                        assert(g.grid.cells@[cell_along(x, y, d, k + 1).0]@[cell_along(x, y, d, k + 1).1] == Cell::Recharge);
                    }
                }
                if passes_chest(g, x, y, d, m1 + 1) {
                    let k = choose|k: int| 1 <= k <= m1 + 1 && #[trigger] g.grid.cells@[cell_along(x, y, d, k).0]@[cell_along(x, y, d, k).1] == Cell::Recharge;
                    if k > 1 {
                        assert(cell_along(x, y, d, k) == cell_along(nx, ny, d, k - 1));
                        assert(g.grid.cells@[cell_along(nx, ny, d, k - 1).0]@[cell_along(nx, ny, d, k - 1).1] == Cell::Recharge);
                    }
                }
                m1 + 1
            } else {
                assert(cell_along(x, y, d, 1) == (nx, ny));
                0
            }
        },
        None => {
            assert(!enterable(g, cell_along(x, y, d, 1)));
            0
        },
    }
}

/// A move walks the player in its direction cell by cell: it enters the
/// first `m` cells of that direction, each on the grid and free of blocks,
/// with `m` the energy spent or fewer when the next cell is a block or off
/// the grid; it is refused when no cell can be entered. The player ends on
/// the last cell entered, facing the direction, and pays the energy
/// chosen, from a full charge of 100 if any cell entered (the last one
/// included) holds a recharge chest, from its own energy otherwise, down
/// to 0.
pub proof fn move_walks_until_blocked(g: Game, p: Player, d: Facing, energy: u8)
    ensures
        exists|m: int|
            {
                let q = moved_player(g, p, d, energy);
                let w = walk(g, p.x as int, p.y as int, d, energy as nat);
                let start = if passes_chest(g, p.x as int, p.y as int, d, m) { 100int } else { p.energy as int };
                &&& 0 <= m <= energy
                &&& #[trigger] cell_along(p.x as int, p.y as int, d, m) == (q.x as int, q.y as int)
                &&& forall|k: int| 1 <= k <= m ==> enterable(g, #[trigger] cell_along(p.x as int, p.y as int, d, k))
                &&& m < energy ==> !enterable(g, cell_along(p.x as int, p.y as int, d, m + 1))
                &&& w.3 <==> m > 0
                &&& q.energy == if start >= energy { start - energy } else { 0 }
                &&& q.facing == d
                &&& q.address == p.address
            },
{
    let m = walk_length(g, p.x as int, p.y as int, d, energy as nat);
    let w = walk(g, p.x as int, p.y as int, d, energy as nat);
    walk_stays_on_its_ray(g, p.x as int, p.y as int, d, energy as nat);
    if m > 0 {
        assert(enterable(g, cell_along(p.x as int, p.y as int, d, m)));
    }
    assert(0 <= w.0 < 256 && 0 <= w.1 < 256) by {
        if m == 0 {
            assert(w.0 == p.x && w.1 == p.y);
        }
    }
    assert(RECHARGED_ENERGY == 100);
    let q = moved_player(g, p, d, energy);
    assert(cell_along(p.x as int, p.y as int, d, m) == (q.x as int, q.y as int));
}

/// An explosion drains every other player in the nine cells around the
/// exploder (its own included) on the 28 x 28 grid, leaves every other
/// player as it was, and costs the exploder 20 energy, down to 0; the
/// exploder stays where it is.
pub proof fn explosion_costs_twenty_and_drains_the_nine_cells(players: Seq<Player>, i: int)
    requires
        0 <= i < players.len(),
    ensures
        ({
            let after = exploded_players(players, i);
            let p = players[i];
            &&& after.len() == players.len()
            &&& after[i].energy == if p.energy >= 20 { p.energy - 20 } else { 0 }
            &&& after[i].x == p.x && after[i].y == p.y && after[i].address == p.address
            &&& forall|j: int|
                0 <= j < players.len() && j != i ==> {
                    let q = players[j];
                    let near = -1 <= q.x - p.x <= 1 && -1 <= q.y - p.y <= 1 && q.x < 28 && q.y < 28;
                    &&& near ==> (#[trigger] after[j]).energy == 0 && after[j].x == q.x && after[j].y
                        == q.y && after[j].address == q.address && after[j].facing == q.facing
                    &&& !near ==> after[j] == q
                }
        }),
{
    explosion_drains_neighbours(players, i);
    assert(ENERGY_TO_EXPLODE == 20);
}

/// A move is refused with `GameEnded` unless the game runs, with
/// `PlayerNotFound` unless the player is in it, with `NotValidEnergy` when
/// it chooses more than 5 energy or more than it has (or it has none),
/// and with `InvalidMovement` when the first cell in its direction cannot
/// be entered; otherwise it goes through.
pub proof fn moves_are_refused_exactly_when(g: Game, who: Seq<u8>, d: Facing, energy: u8)
    ensures
        ({
            let e = move_error(g, who, d, energy);
            &&& !(g.game_state is Active) ==> e == Some(ChainstrikeError::GameEnded)
            &&& g.game_state is Active ==> match player_index(g.players@, who) {
                None => e == Some(ChainstrikeError::PlayerNotFound),
                Some(i) => {
                    let p = g.players@[i];
                    &&& (energy > 5 || p.energy == 0 || energy > p.energy) ==> e == Some(
                        ChainstrikeError::NotValidEnergy,
                    )
                    &&& !(energy > 5 || p.energy == 0 || energy > p.energy) ==> (e == Some(
                        ChainstrikeError::InvalidMovement,
                    ) <==> (energy == 0 || !enterable(g, cell_along(p.x as int, p.y as int, d, 1))))
                    &&& !(energy > 5 || p.energy == 0 || energy > p.energy) ==> (e is None || e
                        == Some(ChainstrikeError::InvalidMovement))
                },
            }
        }),
{
    match player_index(g.players@, who) {
        Some(i) => {
            let p = g.players@[i];
            let m = walk_length(g, p.x as int, p.y as int, d, energy as nat);
            if energy > 0 && m == 0 {
                assert(!enterable(g, cell_along(p.x as int, p.y as int, d, 1)));
            }
            if m > 0 {
                assert(enterable(g, cell_along(p.x as int, p.y as int, d, 1)));
            }
        },
        None => {},
    }
}

} // verus!
