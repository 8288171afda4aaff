//! What holds of every explosion, win, join, claim and game list in
//! Kamikaze Joe.

use vstd::prelude::*;
use crate::address::Address;
use crate::arena::{Facing, GameState, Player, in_blast, saturating_sub};
use crate::kamikazejoe::errors::{InstructionError, KamikazeJoeError};
use crate::kamikazejoe::instructions::claim_prize::{
    AccountBalance,
    PrizeTransfer,
    claim_error,
    claim_outcome,
    prize_receiver,
};
use crate::kamikazejoe::instructions::explode::{ENERGY_TO_EXPLODE, KILL_ENERGY, exploded, exploded_players};
use crate::kamikazejoe::instructions::join_game::{joining_player, state_after_join};
use crate::kamikazejoe::states::game::{Game, block_at, block_defined, recharge_at, wall_at, win_check};
use crate::kamikazejoe::states::matches::{MAX_GAMES, registered};
use crate::kamikazejoe::states::user::User;

verus! {

/// An explosion drains every other player within one cell of the exploder
/// inside the arena, leaves every player farther away as it was and moves
/// nobody. The exploder pays `ENERGY_TO_EXPLODE` from a full charge of
/// `KILL_ENERGY` when its blast reached someone, from its own energy
/// otherwise.
pub proof fn explosion_drains_neighbours(players: Seq<Player>, i: int, w: int, h: int)
    requires
        0 <= i < players.len(),
    ensures
        ({
            let after = exploded_players(players, i, w, h);
            let p = players[i];
            let hit = exists|j: int|
                0 <= j < players.len() && j != i && in_blast(
                    w,
                    h,
                    p.x as int,
                    p.y as int,
                    (#[trigger] players[j]).x as int,
                    players[j].y as int,
                );
            &&& after.len() == players.len()
            &&& hit ==> after[i].energy == KILL_ENERGY - ENERGY_TO_EXPLODE
            &&& !hit ==> after[i].energy == saturating_sub(p.energy, ENERGY_TO_EXPLODE)
            &&& forall|j: int|
                0 <= j < players.len() ==> (#[trigger] after[j]).x == players[j].x && after[j].y
                    == players[j].y && after[j].address == players[j].address
            &&& forall|j: int|
                0 <= j < players.len() && j != i && in_blast(
                    w,
                    h,
                    p.x as int,
                    p.y as int,
                    players[j].x as int,
                    players[j].y as int,
                ) ==> (#[trigger] after[j]).energy == 0
            &&& forall|j: int|
                0 <= j < players.len() && j != i && !in_blast(
                    w,
                    h,
                    p.x as int,
                    p.y as int,
                    players[j].x as int,
                    players[j].y as int,
                ) ==> #[trigger] after[j] == players[j]
        }),
{
}

/// A game is won only while it runs, only by the player checked, and only
/// when every player with energy left shares the winner's address.
pub proof fn winner_is_last_standing(state: GameState, players: Seq<Player>, i: int)
    requires
        0 <= i < players.len(),
    ensures
        win_check(state, players, i) matches GameState::Won { winner } ==> {
            ||| state matches GameState::Won { winner: w } && w == winner
            ||| {
                &&& state is Active
                &&& winner == players[i].address
                &&& forall|j: int|
                    0 <= j < players.len() ==> (#[trigger] players[j]).energy == 0
                        || players[j].address@ == winner@
            }
        },
{
}

/// A won game stays won: the win check never changes a `Won` state, and an
/// explosion in a game with a winner is refused.
pub proof fn won_game_stays_won(winner: Address, players: Seq<Player>, i: int)
    ensures
        win_check(GameState::Won { winner }, players, i) == (GameState::Won { winner }),
{
}

/// The prize goes out once: after a successful claim, the same claim is
/// refused with `InvalidClaim`.
pub proof fn prize_is_paid_once(
    g: Game,
    user_key: Address,
    user: User,
    payer: AccountBalance,
    receiver: Option<AccountBalance>,
    system_program: Address,
    vault_lamports: u64,
    user_seed: Seq<u8>,
    t: PrizeTransfer,
    g1: Game,
    user1: User,
    vault_lamports1: u64,
)
    requires
        claim_outcome(
            g,
            user_key,
            user,
            payer,
            receiver,
            system_program,
            vault_lamports,
            user_seed,
            Ok(t),
            g1,
            user1,
        ),
    ensures
        claim_error(g1, user_key, user1, payer, receiver, system_program, vault_lamports1, user_seed)
            == Some(InstructionError::Program(KamikazeJoeError::InvalidClaim)),
{
}

/// A claim moves lamports and creates none: what the vault loses the
/// receiver gains, and that is 90% of the tickets paid, rounded down.
pub proof fn claim_conserves_lamports(
    g: Game,
    user_key: Address,
    user: User,
    payer: AccountBalance,
    receiver: Option<AccountBalance>,
    system_program: Address,
    vault_lamports: u64,
    user_seed: Seq<u8>,
    t: PrizeTransfer,
    g1: Game,
    user1: User,
)
    requires
        claim_outcome(
            g,
            user_key,
            user,
            payer,
            receiver,
            system_program,
            vault_lamports,
            user_seed,
            Ok(t),
            g1,
            user1,
        ),
    ensures
        t.vault_lamports + t.receiver_lamports == vault_lamports + prize_receiver(payer, receiver).lamports,
        t.payout * 10 <= g.ticket_price * g.players@.len() * 9,
        g.ticket_price * g.players@.len() * 9 < t.payout * 10 + 10,
        t.receiver == prize_receiver(payer, receiver).key,
        g.game_state matches GameState::Won { winner } && winner@ == t.receiver@,
{
}

/// The game list holds at most `MAX_GAMES` games, keeps them oldest first,
/// and ends with the game registered last.
pub proof fn game_list_is_bounded(games: Seq<Address>, game: Address)
    requires
        games.len() <= MAX_GAMES,
    ensures
        ({
            let after = registered(games, game);
            &&& after.len() <= MAX_GAMES
            &&& after.len() == if games.len() == MAX_GAMES {
                games.len()
            } else {
                games.len() + 1
            }
            &&& after.last() == game
            &&& forall|k: int|
                0 <= k < after.len() - 1 ==> #[trigger] after[k] == games[k + games.len() + 1
                    - after.len()]
        }),
{
}

/// An arena whose seed leaves `seed % 59` under 47 answers every cell of a
/// grid of up to 255 x 255 cells without aborting.
pub proof fn small_seed_arenas_are_total(seed: u8, x: int, y: int)
    requires
        seed % 59 < 47,
        0 <= x < 256,
        0 <= y < 256,
    ensures
        block_defined(seed, x, y),
{
    assert(x * x <= 255 * 255 && x * y <= 255 * 255 && y * y <= 255 * 255) by (nonlinear_arith)
        requires
            0 <= x < 256,
            0 <= y < 256,
    ;
}

/// Whether every player of `g` stands on a cell a player may stand on.
pub open spec fn players_on_valid_cells(g: Game) -> bool {
    forall|j: int| 0 <= j < g.players@.len() ==> g.cell_valid(
        (#[trigger] g.players@[j]).x as int,
        g.players@[j].y as int,
    )
}

/// Joining keeps every player on cells a player may stand on: the newcomer
/// takes a valid cell and the arena stays as it was.
pub proof fn joins_keep_players_on_valid_cells(g: Game, after: Game, who: Address, x: u8, y: u8)
    requires
        players_on_valid_cells(g),
        g.cell_valid(x as int, y as int),
        after.players@ == g.players@.push(joining_player(who, x, y)),
        after.width == g.width,
        after.height == g.height,
        after.seed == g.seed,
    ensures
        players_on_valid_cells(after),
{
    assert forall|j: int| 0 <= j < after.players@.len() implies after.cell_valid(
        (#[trigger] after.players@[j]).x as int,
        after.players@[j].y as int,
    ) by {
        if j < g.players@.len() {
            assert(g.cell_valid(g.players@[j].x as int, g.players@[j].y as int));
        }
    }
}

/// Explosions move nobody, so they keep every player on cells a player may
/// stand on.
pub proof fn explosions_keep_players_on_valid_cells(g: Game, after: Game, i: int)
    requires
        0 <= i < g.players@.len(),
        players_on_valid_cells(g),
        exploded(g, after, i),
    ensures
        players_on_valid_cells(after),
{
    assert forall|j: int| 0 <= j < after.players@.len() implies after.cell_valid(
        (#[trigger] after.players@[j]).x as int,
        after.players@[j].y as int,
    ) by {
        assert(g.cell_valid(g.players@[j].x as int, g.players@[j].y as int));
    }
}

/// Whether player `j` of `g` stands next to player `i` (one cell away at
/// most, in both directions) on a cell of the arena.
pub open spec fn next_to(g: Game, i: int, j: int) -> bool {
    let p = g.players@[i];
    let q = g.players@[j];
    &&& j != i
    &&& -1 <= q.x - p.x <= 1
    &&& -1 <= q.y - p.y <= 1
    &&& q.x < g.width
    &&& q.y < g.height
}

/// What an explosion of player `i` does to the game: every other player
/// next to it inside the `width` x `height` arena is drained to 0 and
/// everyone else is left as they were; the exploder stays where it is and
/// pays 20 energy, from a full charge of 100 if its blast reached another
/// player, from its own energy otherwise, down to 0. A running game is
/// then won by the exploder when every player with energy left has the
/// exploder's address; otherwise the game state does not change.
pub proof fn explosion_drains_then_checks_the_exploder(g: Game, after: Game, i: int)
    requires
        0 <= i < g.players@.len(),
        exploded(g, after, i),
    ensures
        ({
            let p = g.players@[i];
            let q = after.players@[i];
            let hit = exists|j: int| 0 <= j < g.players@.len() && #[trigger] next_to(g, i, j);
            let start = if hit { 100int } else { p.energy as int };
            let last_standing = forall|j: int|
                0 <= j < after.players@.len() ==> (#[trigger] after.players@[j]).energy == 0
                    || after.players@[j].address@ == p.address@;
            &&& after.players@.len() == g.players@.len()
            &&& forall|j: int|
                0 <= j < g.players@.len() && #[trigger] next_to(g, i, j) ==> {
                    &&& after.players@[j].energy == 0
                    &&& after.players@[j].x == g.players@[j].x
                    &&& after.players@[j].y == g.players@[j].y
                    &&& after.players@[j].address == g.players@[j].address
                    &&& after.players@[j].facing == g.players@[j].facing
                }
            &&& forall|j: int|
                0 <= j < g.players@.len() && j != i && !next_to(g, i, j) ==> #[trigger] after.players@[j]
                    == g.players@[j]
            &&& q.energy == if start >= 20 { start - 20 } else { 0 }
            &&& q.x == p.x && q.y == p.y && q.address == p.address && q.facing == p.facing
            &&& (g.game_state is Active && last_standing) ==> after.game_state == (GameState::Won {
                winner: p.address,
            })
            &&& !(g.game_state is Active && last_standing) ==> after.game_state == g.game_state
        }),
{
    let p = g.players@[i];
    let players = g.players@;
    let w = g.width as int;
    let h = g.height as int;
    assert forall|j: int| 0 <= j < players.len() implies #[trigger] next_to(g, i, j) == (j != i
        && in_blast(w, h, p.x as int, p.y as int, players[j].x as int, players[j].y as int)) by {}
    let hit = exists|j: int| 0 <= j < g.players@.len() && #[trigger] next_to(g, i, j);
    let hits = exists|j: int|
        0 <= j < players.len() && j != i && in_blast(
            w,
            h,
            p.x as int,
            p.y as int,
            (#[trigger] players[j]).x as int,
            players[j].y as int,
        );
    if hit {
        let j = choose|j: int| 0 <= j < g.players@.len() && #[trigger] next_to(g, i, j);
        assert(players[j] == players[j]);
    }
    if hits {
        let j = choose|j: int|
            0 <= j < players.len() && j != i && in_blast(
                w,
                h,
                p.x as int,
                p.y as int,
                (#[trigger] players[j]).x as int,
                players[j].y as int,
            );
        assert(next_to(g, i, j));
    }
    assert(hit == hits);
    explosion_drains_neighbours(players, i, w, h);
    assert(KILL_ENERGY == 100 && ENERGY_TO_EXPLODE == 20);
}

/// A player may stand only on a cell inside the `width` x `height` arena,
/// and may stand on every cell inside it that holds a recharge chest or no
/// block.
pub proof fn valid_cells_lie_inside_the_arena(g: Game, x: int, y: int)
    ensures
        g.cell_valid(x, y) ==> 0 <= x < g.width && 0 <= y < g.height,
        0 <= x < g.width && 0 <= y < g.height && (recharge_at(g.seed, x, y) || !block_at(g.seed, x, y))
            ==> g.cell_valid(x, y),
{
}

/// The walls of the arena of seed `seed`, repeated every 28 cells: with
/// `s` the seed modulo 6, row 5 is walled from column 4 to column 6 + s,
/// row 23 from column 8 to column 10 + s (11 at least), row 12 from column
/// 13 to column 15 + s, and column 19 from row 13 to row 15 + s (16 at
/// least); no other cell holds a wall. A cell holds a block when it holds
/// a wall or when x² + xy + y² + seed leaves 7 divided by 47 - seed % 59.
pub proof fn arena_walls_follow_the_seed(seed: u8, x: int, y: int)
    requires
        0 <= x,
        0 <= y,
    ensures
        ({
            let s = (seed % 6) as int;
            let xm = x % 28;
            let ym = y % 28;
            &&& ym == 5 ==> (wall_at(seed, x, y) <==> 4 <= xm <= 6 + s)
            &&& ym == 23 ==> (wall_at(seed, x, y) <==> 8 <= xm <= if s >= 1 { 10 + s } else { 11 })
            &&& ym == 12 ==> (wall_at(seed, x, y) <==> 13 <= xm <= 15 + s)
            &&& (ym != 5 && ym != 12 && ym != 23) ==> (wall_at(seed, x, y) <==> (xm == 19 && 13 <= ym
                <= if s >= 1 { 15 + s } else { 16 }))
            &&& block_at(seed, x, y) <==> (wall_at(seed, x, y) || (x * x + x * y + y * y + seed) % (47
                - seed % 59) == 7)
        }),
{
}

/// A player joins with 100 energy, facing down, on the cell it chose; a
/// waiting game starts once it has two players, and a running or won game
/// keeps its state.
pub proof fn joins_add_a_charged_player_and_start_the_game(who: Address, x: u8, y: u8, state: GameState, n: nat)
    ensures
        joining_player(who, x, y) == (Player { x, y, energy: 100, address: who, facing: Facing::Down }),
        state is Waiting ==> state_after_join(state, n) == if n >= 2 {
            GameState::Active
        } else {
            GameState::Waiting
        },
        !(state is Waiting) ==> state_after_join(state, n) == state,
{
}

} // verus!
