//! The Kamikaze Joe game account. Its arena is not stored: whether a cell
//! holds a block or a recharge chest is computed from the game's seed.

use vstd::prelude::*;
use crate::address::{Address, find_program_address, program_address};
pub use crate::arena::{Cell, Facing, GameState, Player};
use crate::arena::{find_player, player_index, saturating_sub};
use crate::kamikazejoe::errors::KamikazeJoeError;
use crate::kamikazejoe::ids::{id, program_id};

verus! {

/// Room reserved for the players of one game.
pub const MAX_PLAYERS: usize = 30;

/// Bytes one `Player` takes in the account: x, y, energy, address, facing.
pub const PLAYER_SPACE: usize = 1 + 1 + 1 + 32 + 1;

/// Bytes the `GameState` takes: a tag and, at most, the winner's address.
pub const GAME_STATE_SPACE: usize = 1 + 32;

/// Bytes the game takes, without the account discriminator: id, width,
/// height, seed, ticket price, claim flag, owner, state and players.
pub const GAME_SPACE: usize = 4 + 1 + 1 + 1 + 8 + 1 + 32 + GAME_STATE_SPACE + (4 + PLAYER_SPACE
    * MAX_PLAYERS);

/// Ticket price of a game created without one, in lamports.
pub const DEFAULT_TICKET_PRICE: u64 = 100000000;

/// Side length of a game created without a width or a height.
pub const DEFAULT_SIDE: u8 = 30;

/// A 30 x 30 grid of cells.
#[derive(Clone, Copy, Debug)]
pub struct Grid {
    pub cells: [[Cell; 30]; 30],
}

/// Rust's `%` on signed integers: the remainder has the sign of `a`.
pub open spec fn rem_toward_zero(a: int, b: int) -> int {
    if a >= 0 {
        a % b
    } else {
        -((-a) % b)
    }
}

/// Whether the arena of seed `seed` holds a recharge chest at column `x`,
/// row `y`.
pub open spec fn recharge_at(seed: u8, x: int, y: int) -> bool {
    let shift = (seed % 14) as int;
    let xs = x + shift;
    let ys = y - shift;
    let x_mod_13 = rem_toward_zero(xs, 13);
    let y_mod_14 = rem_toward_zero(ys, 14);
    let x_mod_28 = rem_toward_zero(xs, 28);
    let y_mod_28 = rem_toward_zero(ys, 28);
    &&& x_mod_13 == y_mod_14
    &&& (x_mod_28 == 27 || xs == 1)
    &&& xs != ys
    &&& x_mod_28 - y_mod_28 < 15
}

/// Whether the arena of seed `seed` has one of its four walls at column
/// `x`, row `y`. The walls repeat every 28 cells.
pub open spec fn wall_at(seed: u8, x: int, y: int) -> bool {
    let len = 4 + seed % 6;
    let long = if len > 5 {
        len
    } else {
        5
    };
    let xm = x % 28;
    let ym = y % 28;
    ||| (ym == 5 && 3 < xm < 3 + len)
    ||| (ym == 23 && 7 < xm < 7 + long)
    ||| (ym == 12 && 12 < xm < 12 + len)
    ||| (xm == 19 && 12 < ym < 12 + long)
}

/// Whether the arena of seed `seed` has a scattered block at column `x`,
/// row `y`.
pub open spec fn scattered_block_at(seed: u8, x: int, y: int) -> bool {
    (x * x + x * y + y * y + seed) % (47 - seed % 59) == 7
}

/// Whether the arena of seed `seed` has a block at column `x`, row `y`.
pub open spec fn block_at(seed: u8, x: int, y: int) -> bool {
    wall_at(seed, x, y) || scattered_block_at(seed, x, y)
}

/// Whether computing `block_at` runs to its end: either a wall answers, or
/// the divisor `47 - seed % 59` is positive and the sum of squares fits in
/// a `usize`. Otherwise the program aborts.
pub open spec fn block_defined(seed: u8, x: int, y: int) -> bool {
    wall_at(seed, x, y) || (seed % 59 < 47 && x * x + x * y + y * y + seed <= usize::MAX)
}

/// The state after checking whether player `i` won: an active game is won
/// by player `i` when every player with energy left shares its address.
pub open spec fn win_check(state: GameState, players: Seq<Player>, i: int) -> GameState {
    let target = players[i].address;
    if state is Active && forall|j: int|
        0 <= j < players.len() ==> (#[trigger] players[j]).energy == 0 || players[j].address@
            == target@ {
        GameState::Won { winner: target }
    } else {
        state
    }
}

/// A Kamikaze Joe game.
#[derive(Clone, Debug)]
pub struct Game {
    pub id: u32,
    pub width: u8,
    pub height: u8,
    pub seed: u8,
    pub ticket_price: u64,
    pub prize_claimed: bool,
    pub owner: Address,
    pub game_state: GameState,
    pub players: Vec<Player>,
}

impl Default for Game {
    /// A 30 x 30 game of seed 0 with a ticket of 0.1 SOL, waiting for players.
    fn default() -> (r: Game)
        ensures
            r.id == 0,
            r.width == DEFAULT_SIDE,
            r.height == DEFAULT_SIDE,
            r.seed == 0,
            r.ticket_price == DEFAULT_TICKET_PRICE,
            !r.prize_claimed,
            r.owner@ == Seq::new(32, |i: int| 0u8),
            r.game_state is Waiting,
            r.players@.len() == 0,
    {
        Game {
            id: 0,
            width: DEFAULT_SIDE,
            height: DEFAULT_SIDE,
            seed: 0,
            ticket_price: DEFAULT_TICKET_PRICE,
            prize_claimed: false,
            owner: Address::zero(),
            game_state: GameState::Waiting,
            players: Vec::new(),
        }
    }
}

impl Game {
    /// Whether a player may stand on the cell at column `x`, row `y`: inside
    /// the arena, and a recharge chest or no block.
    pub open spec fn cell_valid(&self, x: int, y: int) -> bool {
        &&& 0 <= x < self.width
        &&& 0 <= y < self.height
        &&& (recharge_at(self.seed, x, y) || !block_at(self.seed, x, y))
    }

    /// Whether `is_cell_valid` runs to its end on this cell.
    pub open spec fn cell_defined(&self, x: int, y: int) -> bool {
        ||| !(0 <= x < self.width && 0 <= y < self.height)
        ||| recharge_at(self.seed, x, y)
        ||| block_defined(self.seed, x, y)
    }

    /// Whether the game still takes players and moves.
    pub open spec fn active(&self) -> bool {
        self.game_state is Waiting || self.game_state is Active
    }

    /// Whether `player` may claim the prize: the game is won by `player`,
    /// the prize is unclaimed and tickets were paid.
    pub open spec fn claimable_by(&self, player: Seq<u8>) -> bool {
        &&& self.game_state matches GameState::Won { winner } && winner@ == player
        &&& !self.prize_claimed
        &&& self.ticket_price > 0
    }

    /// The state after `check_if_won` for player `i`.
    pub open spec fn state_after_win_check(&self, i: int) -> GameState {
        win_check(self.game_state, self.players@, i)
    }

    /// Bytes the game account takes, its discriminator included.
    pub fn size() -> (r: usize)
        ensures
            r == 8 + GAME_SPACE,
            r == 1173,
    {
        8 + GAME_SPACE
    }

    /// The address of the game account of `user` numbered `id`, derived
    /// from the seeds `seed`, `user` and `id`.
    pub fn pda(seed: &[u8], user: &Address, id: &[u8]) -> (r: (Address, u8))
        requires
            seed@.len() <= 32,
            id@.len() <= 32,
        ensures
            (r.0@, r.1) == program_address(seq![seed@, user@, id@], program_id()),
    {
        let mut seeds: Vec<Vec<u8>> = Vec::new();
        seeds.push(vstd::slice::slice_to_vec(seed));
        seeds.push(user.to_vec());
        seeds.push(vstd::slice::slice_to_vec(id));
        assert(seeds@.map_values(|s: Vec<u8>| s@) =~= seq![seed@, user@, id@]);
        find_program_address(&seeds, &crate::kamikazejoe::ids::id())
    }

    /// The number of columns of the arena.
    pub fn width(&self) -> (r: usize)
        ensures
            r == self.width,
    {
        self.width as usize
    }

    /// The number of rows of the arena.
    pub fn height(&self) -> (r: usize)
        ensures
            r == self.height,
    {
        self.height as usize
    }

    /// Whether a player may stand on the cell at column `x`, row `y`.
    pub fn is_cell_valid(&self, x: usize, y: usize) -> (r: bool)
        requires
            self.cell_defined(x as int, y as int),
        ensures
            r == self.cell_valid(x as int, y as int),
    {
        x < self.width as usize && y < self.height as usize && (self.is_recharge(x, y)
            || !self.is_block(x, y))
    }

    /// Whether the arena holds a recharge chest at column `x`, row `y`.
    pub fn is_recharge(&self, x: usize, y: usize) -> (r: bool)
        requires
            (x as i64) + (self.seed % 14) <= i64::MAX,
            (y as i64) - (self.seed % 14) >= i64::MIN,
        ensures
            r == recharge_at(self.seed, (x as i64) as int, (y as i64) as int),
    {
        let shift = self.seed % 14;
        let x_plus_shift = x as i64 + shift as i64;
        let y_minus_shift = y as i64 - shift as i64;

        let x_mod_13 = x_plus_shift % 13;
        let y_mod_14 = y_minus_shift % 14;
        let x_mod_28 = x_plus_shift % 28;
        let y_mod_28 = y_minus_shift % 28;

        x_mod_13 == y_mod_14 && (x_mod_28 == 27 || x_plus_shift == 1) && x_plus_shift
            != y_minus_shift && x_mod_28 - y_mod_28 < 15
    }

    /// Whether the arena holds a block at column `x`, row `y`.
    pub fn is_block(&self, x: usize, y: usize) -> (r: bool)
        requires
            block_defined(self.seed, x as int, y as int),
        ensures
            r == block_at(self.seed, x as int, y as int),
    {
        if self.is_wall(x, y) {
            return true;
        }
        proof {
            assert(x * x >= 0 && x * y >= 0 && y * y >= 0) by (nonlinear_arith);
        }
        let x_squared_plus_y = x * x + x * y;
        let y_squared = y * y;
        let divisor = (47 % 60) - (self.seed % 59);
        let remainder = (x_squared_plus_y + y_squared + self.seed as usize) % divisor as usize;

        remainder == 7
    }

    /// Whether the arena has one of its walls at column `x`, row `y`.
    fn is_wall(&self, x: usize, y: usize) -> (r: bool)
        ensures
            r == wall_at(self.seed, x as int, y as int),
    {
        let len = (4 + self.seed % 6) as usize;
        let long = if len > 5 {
            len
        } else {
            5
        };
        let x_mod_28 = x % 28;
        let y_mod_28 = y % 28;

        (y_mod_28 == 5 && x_mod_28 > 3 && x_mod_28 < 3 + len) || (y_mod_28 == 23 && x_mod_28 > 7
            && x_mod_28 < 7 + long) || (y_mod_28 == 12 && x_mod_28 > 12 && x_mod_28 < 12 + len)
            || (x_mod_28 == 19 && y_mod_28 > 12 && y_mod_28 < 12 + long)
    }

    /// Whether `is_cell_valid` runs to its end on the cell at column `x`,
    /// row `y`, rather than aborting.
    pub fn is_cell_computable(&self, x: usize, y: usize) -> (r: bool)
        ensures
            r == self.cell_defined(x as int, y as int),
    {
        if !(x < self.width as usize && y < self.height as usize) {
            return true;
        }
        if self.is_recharge(x, y) || self.is_wall(x, y) {
            return true;
        }
        proof {
            assert(x * x + x * y + y * y + self.seed <= 255 * 255 * 3 + 255) by (nonlinear_arith)
                requires
                    x < 256,
                    y < 256,
                    self.seed < 256,
            ;
        }
        self.seed % 59 < 47
    }

    /// Whether the game still takes players and moves.
    pub fn is_game_active(&self) -> (r: bool)
        ensures
            r == self.active(),
    {
        self.game_state == GameState::Waiting || self.game_state == GameState::Active
    }

    /// Whether `player` may claim the prize.
    pub fn can_claim(&self, player: &Address) -> (r: bool)
        ensures
            r == self.claimable_by(player@),
    {
        self.game_state == GameState::Won { winner: *player } && self.prize_claimed == false
            && self.ticket_price > 0
    }

    /// The index of the first player whose address is `player_key`.
    pub fn get_player_index(&self, player_key: Address) -> (r: Result<usize, KamikazeJoeError>)
        ensures
            match r {
                Ok(i) => player_index(self.players@, player_key@) == Some(i as int),
                Err(e) => e == KamikazeJoeError::PlayerNotFound && player_index(
                    self.players@,
                    player_key@,
                ) is None,
            },
    {
        match find_player(&self.players, &player_key) {
            Some(i) => Ok(i),
            None => Err(KamikazeJoeError::PlayerNotFound),
        }
    }

    /// Takes `energy` from player `player_index`, down to 0.
    pub fn reduce_energy(&mut self, player_index: usize, energy: u8)
        requires
            player_index < old(self).players@.len(),
        ensures
            final(self).players@ == old(self).players@.update(
                player_index as int,
                crate::arena::with_energy(
                    old(self).players@[player_index as int],
                    saturating_sub(old(self).players@[player_index as int].energy, energy),
                ),
            ),
            final(self).id == old(self).id,
            final(self).width == old(self).width,
            final(self).height == old(self).height,
            final(self).seed == old(self).seed,
            final(self).ticket_price == old(self).ticket_price,
            final(self).prize_claimed == old(self).prize_claimed,
            final(self).owner == old(self).owner,
            final(self).game_state == old(self).game_state,
    {
        let p = self.players[player_index];
        let left = if energy > p.energy {
            0
        } else {
            p.energy - energy
        };
        self.players.set(
            player_index,
            Player { x: p.x, y: p.y, energy: left, address: p.address, facing: p.facing },
        );
    }

    /// Ends an active game with player `player_index` as the winner when no
    /// player with another address has energy left.
    pub fn check_if_won(&mut self, player_index: usize)
        requires
            player_index < old(self).players@.len(),
        ensures
            final(self).game_state == old(self).state_after_win_check(player_index as int),
            final(self).players@ == old(self).players@,
            final(self).id == old(self).id,
            final(self).width == old(self).width,
            final(self).height == old(self).height,
            final(self).seed == old(self).seed,
            final(self).ticket_price == old(self).ticket_price,
            final(self).prize_claimed == old(self).prize_claimed,
            final(self).owner == old(self).owner,
    {
        if let GameState::Active = self.game_state {
            let target_address = self.players[player_index].address;
            let mut all_players_match = true;
            let mut j: usize = 0;
            while j < self.players.len()
                invariant
                    j <= self.players@.len(),
                    target_address == self.players@[player_index as int].address,
                    player_index < self.players@.len(),
                    all_players_match ==> forall|k: int|
                        0 <= k < j ==> (#[trigger] self.players@[k]).energy == 0
                            || self.players@[k].address@ == target_address@,
                    !all_players_match ==> exists|k: int|
                        0 <= k < self.players@.len() && (#[trigger] self.players@[k]).energy > 0
                            && self.players@[k].address@ != target_address@,
                ensures
                    all_players_match == forall|k: int|
                        0 <= k < self.players@.len() ==> (#[trigger] self.players@[k]).energy == 0
                            || self.players@[k].address@ == target_address@,
                decreases self.players@.len() - j,
            {
                let p = self.players[j];
                if p.energy > 0 && !p.address.same(&target_address) {
                    all_players_match = false;
                    break ;
                }
                j = j + 1;
            }
            if all_players_match {
                self.game_state = GameState::Won { winner: target_address };
            }
        }
    }
}

} // verus!
