//! The pieces both arenas share: cells, facings, game states and players,
//! finding a player by address, the cells an explosion reaches, and
//! saturating energy arithmetic.

use vstd::prelude::*;
use crate::address::Address;

verus! {

/// One cell of the grid.
#[derive(Clone, Copy, Debug, PartialEq, Eq, Structural)]
pub enum Cell {
    Empty,
    Block,
    Recharge,
}

impl Default for Cell {
    fn default() -> (r: Cell)
        ensures
            r == Cell::Empty,
    {
        Cell::Empty
    }
}

/// The direction a player faces, and moves in.
#[derive(Clone, Copy, Debug, PartialEq, Eq, Structural)]
pub enum Facing {
    Up,
    Down,
    Left,
    Right,
}

impl Default for Facing {
    fn default() -> (r: Facing)
        ensures
            r == Facing::Down,
    {
        Facing::Down
    }
}

/// Whether a game waits for players, runs, or has a winner.
#[derive(Clone, Copy, Debug)]
pub enum GameState {
    Waiting,
    Active,
    Won { winner: Address },
}

impl GameState {
    /// Two states are equal when they are the same variant and, for `Won`,
    /// name the same winner.
    pub open spec fn same_as(self, other: GameState) -> bool {
        match (self, other) {
            (GameState::Waiting, GameState::Waiting) => true,
            (GameState::Active, GameState::Active) => true,
            (GameState::Won { winner: a }, GameState::Won { winner: b }) => a@ == b@,
            _ => false,
        }
    }
}

impl PartialEq for GameState {
    fn eq(&self, other: &GameState) -> (r: bool) {
        match (self, other) {
            (GameState::Waiting, GameState::Waiting) => true,
            (GameState::Active, GameState::Active) => true,
            (GameState::Won { winner: a }, GameState::Won { winner: b }) => a.same(b),
            _ => false,
        }
    }
}

impl vstd::std_specs::cmp::PartialEqSpecImpl for GameState {
    open spec fn obeys_eq_spec() -> bool {
        true
    }

    open spec fn eq_spec(&self, other: &GameState) -> bool {
        self.same_as(*other)
    }
}

impl Eq for GameState {}

impl Default for GameState {
    fn default() -> (r: GameState)
        ensures
            r is Waiting,
    {
        GameState::Waiting
    }
}

/// One player of a game.
#[derive(Clone, Copy, Debug)]
pub struct Player {
    pub x: u8,
    pub y: u8,
    pub energy: u8,
    pub address: Address,
    pub facing: Facing,
}

impl Default for Player {
    /// A player at the origin with full energy, facing down.
    fn default() -> (r: Player)
        ensures
            r.x == 0,
            r.y == 0,
            r.energy == 100,
            r.address@ == Seq::new(32, |i: int| 0u8),
            r.facing == Facing::Down,
    {
        Player { x: 0, y: 0, energy: 100, address: Address::zero(), facing: Facing::Down }
    }
}

/// The index of the first player at or after `start` whose address is `key`.
pub open spec fn first_index_from(players: Seq<Player>, key: Seq<u8>, start: int) -> Option<int>
    decreases players.len() - start,
{
    if start < 0 || start >= players.len() {
        None
    } else if players[start].address@ == key {
        Some(start)
    } else {
        first_index_from(players, key, start + 1)
    }
}

/// The index of the first player whose address is `key`.
pub open spec fn player_index(players: Seq<Player>, key: Seq<u8>) -> Option<int> {
    first_index_from(players, key, 0)
}

/// `first_index_from` finds the first match at or after `start`.
pub proof fn lemma_first_index_from(players: Seq<Player>, key: Seq<u8>, start: int)
    requires
        0 <= start,
    ensures
        match first_index_from(players, key, start) {
            Some(i) => start <= i < players.len() && players[i].address@ == key && forall|j: int|
                start <= j < i ==> #[trigger] players[j].address@ != key,
            None => forall|j: int| start <= j < players.len() ==> #[trigger] players[j].address@ != key,
        },
    decreases players.len() - start,
{
    if start < players.len() && players[start].address@ != key {
        lemma_first_index_from(players, key, start + 1);
    }
}

/// Finds the first player whose address is `key`.
pub fn find_player(players: &Vec<Player>, key: &Address) -> (r: Option<usize>)
    ensures
        match r {
            Some(i) => player_index(players@, key@) == Some(i as int),
            None => player_index(players@, key@) is None,
        },
{
    let mut i: usize = 0;
    while i < players.len()
        invariant
            i <= players@.len(),
            first_index_from(players@, key@, 0) == first_index_from(players@, key@, i as int),
        decreases players@.len() - i,
    {
        if players[i].address.same(key) {
            return Some(i);
        }
        i = i + 1;
    }
    None
}

/// A player with its energy taken.
pub open spec fn drained(q: Player) -> Player {
    Player { x: q.x, y: q.y, energy: 0, address: q.address, facing: q.facing }
}

/// `a - b`, or 0 where `b` exceeds `a`.
pub open spec fn saturating_sub(a: u8, b: u8) -> u8 {
    if b > a {
        0
    } else {
        (a - b) as u8
    }
}

/// Cell `c` (0 to 8) of those an explosion at column `x`, row `y` reaches,
/// in the order they are checked.
pub open spec fn blast_cell(x: int, y: int, c: int) -> (int, int) {
    if c == 0 {
        (x, y)
    } else if c == 1 {
        (x + 1, y)
    } else if c == 2 {
        (x - 1, y)
    } else if c == 3 {
        (x, y + 1)
    } else if c == 4 {
        (x, y - 1)
    } else if c == 5 {
        (x + 1, y + 1)
    } else if c == 6 {
        (x - 1, y - 1)
    } else if c == 7 {
        (x - 1, y + 1)
    } else {
        (x + 1, y - 1)
    }
}

/// Whether one of the first `c` blast cells of an explosion at (`x`, `y`)
/// lies inside a `w` x `h` grid and is the cell (`qx`, `qy`).
pub open spec fn hit_upto(w: int, h: int, x: int, y: int, qx: int, qy: int, c: int) -> bool
    decreases c,
{
    if c <= 0 {
        false
    } else {
        let cell = blast_cell(x, y, c - 1);
        hit_upto(w, h, x, y, qx, qy, c - 1) || (0 <= cell.0 < w && 0 <= cell.1 < h && cell.0
            == qx && cell.1 == qy)
    }
}

/// Whether the cell (`qx`, `qy`) is inside a `w` x `h` grid and at most one
/// column and one row away from (`x`, `y`).
pub open spec fn in_blast(w: int, h: int, x: int, y: int, qx: int, qy: int) -> bool {
    &&& 0 <= qx < w
    &&& 0 <= qy < h
    &&& -1 <= qx - x <= 1
    &&& -1 <= qy - y <= 1
}

/// The nine blast cells are exactly the cells at most one step away.
pub proof fn lemma_hit_all(w: int, h: int, x: int, y: int, qx: int, qy: int)
    ensures
        hit_upto(w, h, x, y, qx, qy, 9) == in_blast(w, h, x, y, qx, qy),
{
    reveal_with_fuel(hit_upto, 10);
}

/// Player `q` with its energy set to `energy`.
pub open spec fn with_energy(q: Player, energy: u8) -> Player {
    Player { x: q.x, y: q.y, energy: energy, address: q.address, facing: q.facing }
}

/// The players after player `i` blows up in a `w` x `h` grid: every other
/// player in the blast is drained.
pub open spec fn blasted_players(players: Seq<Player>, i: int, w: int, h: int) -> Seq<Player> {
    let p = players[i];
    Seq::new(
        players.len(),
        |j: int|
            if j != i && in_blast(w, h, p.x as int, p.y as int, players[j].x as int, players[j].y as int) {
                drained(players[j])
            } else {
                players[j]
            },
    )
}

/// Whether the blast of player `i` in a `w` x `h` grid reaches another player.
pub open spec fn blast_hits(players: Seq<Player>, i: int, w: int, h: int) -> bool {
    let p = players[i];
    exists|j: int|
        0 <= j < players.len() && j != i && in_blast(
            w,
            h,
            p.x as int,
            p.y as int,
            (#[trigger] players[j]).x as int,
            players[j].y as int,
        )
}

/// Drains every player but `skip` that stands on the cell (`x`, `y`), and
/// tells whether there was one.
fn drain_cell(players: &mut Vec<Player>, skip: usize, x: u8, y: u8) -> (found: bool)
    ensures
        final(players)@.len() == old(players)@.len(),
        forall|j: int|
            0 <= j < old(players)@.len() ==> #[trigger] final(players)@[j] == if j != skip
                && old(players)@[j].x == x && old(players)@[j].y == y {
                drained(old(players)@[j])
            } else {
                old(players)@[j]
            },
        found == exists|j: int|
            0 <= j < old(players)@.len() && j != skip && (#[trigger] old(players)@[j]).x == x
                && old(players)@[j].y == y,
{
    let ghost before = players@;
    let mut found = false;
    let mut j: usize = 0;
    while j < players.len()
        invariant
            j <= players@.len(),
            players@.len() == before.len(),
            forall|k: int|
                0 <= k < before.len() ==> #[trigger] players@[k] == if k < j && k != skip
                    && before[k].x == x && before[k].y == y {
                    drained(before[k])
                } else {
                    before[k]
                },
            found == exists|k: int|
                0 <= k < j && k != skip && (#[trigger] before[k]).x == x && before[k].y == y,
            before == old(players)@,
        decreases players@.len() - j,
    {
        if j != skip {
            let q = players[j];
            if q.x == x && q.y == y {
                players.set(j, Player { x: q.x, y: q.y, energy: 0, address: q.address, facing: q.facing });
                found = true;
            }
        }
        j = j + 1;
    }
    found
}

/// Player `i` blows up in a `width` x `height` grid: every other player in
/// its cell or the eight cells around it loses all energy. Tells whether the
/// blast reached another player.
pub fn blast(players: &mut Vec<Player>, i: usize, width: usize, height: usize) -> (hit: bool)
    requires
        i < old(players)@.len(),
        width < 256,
        height < 256,
    ensures
        final(players)@ == blasted_players(old(players)@, i as int, width as int, height as int),
        hit == blast_hits(old(players)@, i as int, width as int, height as int),
{
    let p = players[i];
    let ghost before = players@;
    let x = p.x as i16;
    let y = p.y as i16;
    let cells_to_check: [(i16, i16); 9] = [
        (x, y),
        (x + 1, y),
        (x - 1, y),
        (x, y + 1),
        (x, y - 1),
        (x + 1, y + 1),
        (x - 1, y - 1),
        (x - 1, y + 1),
        (x + 1, y - 1),
    ];
    assert forall|c: int| 0 <= c < 9 implies (#[trigger] cells_to_check@[c]).0 == blast_cell(
        x as int,
        y as int,
        c,
    ).0 && cells_to_check@[c].1 == blast_cell(x as int, y as int, c).1 by {}
    let w = width as i16;
    let h = height as i16;
    let mut hit = false;
    let mut c: usize = 0;
    while c < 9
        invariant
            c <= 9,
            players@.len() == before.len(),
            i < before.len(),
            before[i as int] == p,
            x == p.x,
            y == p.y,
            w == width,
            h == height,
            width < 256,
            height < 256,
            forall|t: int|
                0 <= t < 9 ==> (#[trigger] cells_to_check@[t]).0 == blast_cell(x as int, y as int, t).0
                    && cells_to_check@[t].1 == blast_cell(x as int, y as int, t).1,
            forall|k: int|
                0 <= k < before.len() ==> #[trigger] players@[k] == if k != i && hit_upto(
                    w as int,
                    h as int,
                    x as int,
                    y as int,
                    before[k].x as int,
                    before[k].y as int,
                    c as int,
                ) {
                    drained(before[k])
                } else {
                    before[k]
                },
            hit == exists|k: int|
                0 <= k < before.len() && k != i && hit_upto(
                    w as int,
                    h as int,
                    x as int,
                    y as int,
                    (#[trigger] before[k]).x as int,
                    before[k].y as int,
                    c as int,
                ),
            before == old(players)@,
        decreases 9 - c,
    {
        let (cx, cy) = cells_to_check[c];
        let ghost mid = players@;
        if !(cx < 0 || cy < 0 || cx >= w || cy >= h) {
            let found = drain_cell(players, i, cx as u8, cy as u8);
            if found {
                hit = true;
            }
            proof {
                assert forall|k: int| 0 <= k < before.len() && k != i && hit_upto(
                    w as int,
                    h as int,
                    x as int,
                    y as int,
                    (#[trigger] before[k]).x as int,
                    before[k].y as int,
                    c + 1,
                ) implies hit by {
                    if !hit_upto(w as int, h as int, x as int, y as int, before[k].x as int, before[k].y as int, c as int) {
                        assert(mid[k].x == before[k].x);
                    }
                }
            }
        }
        c = c + 1;
    }
    assert forall|k: int| 0 <= k < before.len() implies #[trigger] players@[k] == if k != i
        && in_blast(w as int, h as int, p.x as int, p.y as int, before[k].x as int, before[k].y as int) {
        drained(before[k])
    } else {
        before[k]
    } by {
        lemma_hit_all(w as int, h as int, p.x as int, p.y as int, before[k].x as int, before[k].y as int);
    }
    assert forall|k: int| 0 <= k < before.len() && k != i implies hit_upto(
        w as int,
        h as int,
        x as int,
        y as int,
        (#[trigger] before[k]).x as int,
        before[k].y as int,
        9,
    ) == in_blast(w as int, h as int, p.x as int, p.y as int, before[k].x as int, before[k].y as int) by {
        lemma_hit_all(w as int, h as int, p.x as int, p.y as int, before[k].x as int, before[k].y as int);
    }
    assert(players@ =~= blasted_players(before, i as int, width as int, height as int));
    hit
}

} // verus!
