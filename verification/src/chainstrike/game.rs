//! The Chainstrike game account: a fixed grid, the game state and the players.

use vstd::prelude::*;
use crate::address::Address;
pub use crate::arena::{Cell, Facing, GameState, Player};

verus! {

/// Side length of the square Chainstrike grid.
pub const GRID_SIDE: usize = 28;

/// Room reserved for the players of one game.
pub const MAX_PLAYERS: usize = 10;

/// Bytes one `Facing` takes in the account: its tag.
pub const FACING_SPACE: usize = 1;

/// Bytes one `Player` takes in the account: x, y, energy, address, facing.
pub const PLAYER_SPACE: usize = 1 + 1 + 1 + 32 + FACING_SPACE;

/// Bytes the `GameState` takes: a tag and, at most, the winner's address.
pub const GAME_STATE_SPACE: usize = 1 + 32;

/// Bytes the grid takes: one tag per cell.
pub const GRID_SPACE: usize = 28 * (28 * 1);

/// Bytes the game takes, without the account discriminator.
pub const GAME_SPACE: usize = 8 + 32 + GRID_SPACE + GAME_STATE_SPACE + (4 + PLAYER_SPACE * MAX_PLAYERS);

/// What `Grid::default` puts in the cell at column `x`, row `y`: five walls
/// of blocks, five single blocks and two recharge chests.
pub open spec fn default_cell(x: int, y: int) -> Cell {
    if x == 10 && 5 <= y < 10 {
        Cell::Block
    } else if 4 <= x <= 7 && (y == 5 || y == 23) {
        Cell::Block
    } else if 13 <= x <= 16 && y == 13 {
        Cell::Block
    } else if (x == 3 && y == 3) || (x == 24 && (y == 23 || y == 22 || y == 4)) || (x == 0
        && y == 13) {
        Cell::Block
    } else if (x == 1 || x == 26) && y == 14 {
        Cell::Recharge
    } else {
        Cell::Empty
    }
}

/// The cells of the arena, indexed by column, then row.
#[derive(Clone, Copy, Debug)]
pub struct Grid {
    pub cells: [[Cell; 28]; 28],
}

impl Grid {
    /// The cell at column `x`, row `y`.
    pub open spec fn cell(self, x: int, y: int) -> Cell {
        self.cells@[x]@[y]
    }
}

/// Sets one cell of a grid, leaving the others as they are.
fn set_cell(cells: &mut [[Cell; 28]; 28], x: usize, y: usize, c: Cell)
    requires
        x < 28,
        y < 28,
    ensures
        forall|i: int, j: int|
            0 <= i < 28 && 0 <= j < 28 ==> #[trigger] final(cells)@[i]@[j] == if i == x && j
                == y {
                c
            } else {
                old(cells)@[i]@[j]
            },
{
    cells[x][y] = c;
}

impl Default for Grid {
    /// The Chainstrike arena.
    fn default() -> (r: Grid)
        ensures
            forall|x: int, y: int| 0 <= x < 28 && 0 <= y < 28 ==> #[trigger] r.cell(x, y) == default_cell(x, y),
    {
        let mut cells = [[Cell::Empty; 28]; 28];
        let mut y: usize = 5;
        while y < 10
            invariant
                5 <= y <= 10,
                forall|i: int, j: int|
                    0 <= i < 28 && 0 <= j < 28 ==> #[trigger] cells@[i]@[j] == if i == 10 && 5
                        <= j < y {
                        Cell::Block
                    } else {
                        Cell::Empty
                    },
            decreases 10 - y,
        {
            set_cell(&mut cells, 10, y, Cell::Block);
            y = y + 1;
        }
        let mut x: usize = 4;
        while x < 8
            invariant
                4 <= x <= 8,
                forall|i: int, j: int|
                    0 <= i < 28 && 0 <= j < 28 ==> #[trigger] cells@[i]@[j] == if (i == 10 && 5
                        <= j < 10) || (4 <= i < x && (j == 5 || j == 23)) {
                        Cell::Block
                    } else {
                        Cell::Empty
                    },
            decreases 8 - x,
        {
            set_cell(&mut cells, x, 5, Cell::Block);
            set_cell(&mut cells, x, 23, Cell::Block);
            x = x + 1;
        }
        let mut x: usize = 13;
        while x < 17
            invariant
                13 <= x <= 17,
                forall|i: int, j: int|
                    0 <= i < 28 && 0 <= j < 28 ==> #[trigger] cells@[i]@[j] == if (i == 10 && 5
                        <= j < 10) || (4 <= i < 8 && (j == 5 || j == 23)) || (13 <= i < x && j
                        == 13) {
                        Cell::Block
                    } else {
                        Cell::Empty
                    },
            decreases 17 - x,
        {
            set_cell(&mut cells, x, 13, Cell::Block);
            x = x + 1;
        }
        set_cell(&mut cells, 3, 3, Cell::Block);
        set_cell(&mut cells, 24, 23, Cell::Block);
        set_cell(&mut cells, 24, 22, Cell::Block);
        set_cell(&mut cells, 0, 13, Cell::Block);
        set_cell(&mut cells, 24, 4, Cell::Block);
        set_cell(&mut cells, 1, 14, Cell::Recharge);
        set_cell(&mut cells, 26, 14, Cell::Recharge);
        Grid { cells }
    }
}

/// A Chainstrike game.
#[derive(Clone, Debug)]
pub struct Game {
    pub created_at: i64,
    pub owner: Address,
    pub grid: Grid,
    pub game_state: GameState,
    pub players: Vec<Player>,
}

impl Default for Game {
    /// A game waiting for players, on the default arena.
    fn default() -> (r: Game)
        ensures
            r.created_at == 0,
            r.owner@ == Seq::new(32, |i: int| 0u8),
            forall|x: int, y: int| 0 <= x < 28 && 0 <= y < 28 ==> #[trigger] r.grid.cell(x, y) == default_cell(x, y),
            r.game_state is Waiting,
            r.players@.len() == 0,
    {
        Game {
            created_at: 0,
            owner: Address::zero(),
            grid: Grid::default(),
            game_state: GameState::Waiting,
            players: Vec::new(),
        }
    }
}

impl Game {
    /// The cell at column `x`, row `y`.
    pub open spec fn cell(&self, x: int, y: int) -> Cell {
        self.grid.cell(x, y)
    }

    /// Whether a player may stand on the cell: inside the grid and not a block.
    pub open spec fn cell_valid(&self, x: int, y: int) -> bool {
        0 <= x < 28 && 0 <= y < 28 && (self.cell(x, y) == Cell::Empty || self.cell(x, y)
            == Cell::Recharge)
    }

    /// Whether the game is running.
    pub open spec fn active(&self) -> bool {
        self.game_state is Active
    }

    /// Bytes the game account takes, its discriminator included.
    pub fn size() -> (r: usize)
        ensures
            r == 8 + GAME_SPACE,
            r == 1229,
    {
        8 + GAME_SPACE
    }

    /// Whether a player may stand on the cell at column `x`, row `y`.
    pub fn is_cell_valid(&self, x: usize, y: usize) -> (r: bool)
        ensures
            r == self.cell_valid(x as int, y as int),
    {
        x < self.width() && y < self.height() && (self.grid.cells[x][y] == Cell::Empty
            || self.grid.cells[x][y] == Cell::Recharge)
    }

    /// Whether the cell at column `x`, row `y` holds a recharge chest.
    pub fn is_recharge(&self, x: usize, y: usize) -> (r: bool)
        requires
            x < 28,
            y < 28,
        ensures
            r == (self.cell(x as int, y as int) == Cell::Recharge),
    {
        self.grid.cells[x][y] == Cell::Recharge
    }

    /// Whether the game is running.
    pub fn is_game_active(&self) -> (r: bool)
        ensures
            r == self.active(),
    {
        self.game_state == GameState::Active
    }

    /// The number of columns of the grid.
    pub fn width(&self) -> (r: usize)
        ensures
            r == GRID_SIDE,
    {
        self.grid.cells.len()
    }

    /// The number of rows of the grid.
    pub fn height(&self) -> (r: usize)
        ensures
            r == GRID_SIDE,
    {
        self.grid.cells[0].len()
    }
}

} // verus!
