use arena_programs::address::Address;
use arena_programs::chainstrike::errors::ChainstrikeError;
use arena_programs::chainstrike::game::{Cell, Facing, Game, GameState, Grid, Player};
use arena_programs::chainstrike::instructions::{explode, make_move};

fn addr(k: u8) -> Address {
    Address::new([k; 32])
}

fn player(k: u8, x: u8, y: u8, energy: u8) -> Player {
    Player { x, y, energy, address: addr(k), facing: Facing::Down }
}

fn active_game(players: Vec<Player>) -> Game {
    let mut g = Game::default();
    g.game_state = GameState::Active;
    g.players = players;
    g
}

fn summary(p: &Player) -> (u8, u8, u8, [u8; 32], Facing) {
    (p.x, p.y, p.energy, p.address.bytes, p.facing)
}

fn summaries(g: &Game) -> Vec<(u8, u8, u8, [u8; 32], Facing)> {
    g.players.iter().map(summary).collect()
}

#[test]
fn default_grid_has_the_documented_layout() {
    let g = Grid::default();
    for y in 5..10 {
        assert_eq!(g.cells[10][y], Cell::Block);
    }
    assert_eq!(g.cells[10][4], Cell::Empty);
    assert_eq!(g.cells[10][10], Cell::Empty);
    for x in 4..8 {
        assert_eq!(g.cells[x][5], Cell::Block);
        assert_eq!(g.cells[x][23], Cell::Block);
    }
    for x in 13..17 {
        assert_eq!(g.cells[x][13], Cell::Block);
    }
    for (x, y) in [(3, 3), (24, 23), (24, 22), (0, 13), (24, 4)] {
        assert_eq!(g.cells[x][y], Cell::Block);
    }
    assert_eq!(g.cells[1][14], Cell::Recharge);
    assert_eq!(g.cells[26][14], Cell::Recharge);
    let mut blocks = 0;
    let mut recharges = 0;
    for x in 0..28 {
        for y in 0..28 {
            match g.cells[x][y] {
                Cell::Block => blocks += 1,
                Cell::Recharge => recharges += 1,
                Cell::Empty => {},
            }
        }
    }
    assert_eq!(blocks, 5 + 8 + 4 + 5);
    assert_eq!(recharges, 2);
}

#[test]
fn defaults_of_the_pieces() {
    let p = Player::default();
    assert_eq!((p.x, p.y, p.energy, p.address.bytes, p.facing), (0, 0, 100, [0; 32], Facing::Down));
    assert_eq!(Cell::default(), Cell::Empty);
    assert_eq!(Facing::default(), Facing::Down);
    assert!(GameState::default() == GameState::Waiting);
    let g = Game::default();
    assert_eq!(g.created_at, 0);
    assert_eq!(g.owner.bytes, [0; 32]);
    assert!(g.game_state == GameState::Waiting);
    assert!(g.players.is_empty());
}

#[test]
fn game_size_and_dimensions() {
    assert_eq!(Game::size(), 1229);
    let g = Game::default();
    assert_eq!(g.width(), 28);
    assert_eq!(g.height(), 28);
}

#[test]
fn cell_validity() {
    let g = Game::default();
    assert!(g.is_cell_valid(0, 0));
    assert!(g.is_cell_valid(1, 14));
    assert!(!g.is_cell_valid(10, 5));
    assert!(!g.is_cell_valid(28, 0));
    assert!(!g.is_cell_valid(0, 28));
    assert!(g.is_recharge(26, 14));
    assert!(!g.is_recharge(0, 0));
}

#[test]
fn game_activity_and_states() {
    let mut g = Game::default();
    assert!(!g.is_game_active());
    g.game_state = GameState::Active;
    assert!(g.is_game_active());
    g.game_state = GameState::Won { winner: addr(1) };
    assert!(!g.is_game_active());
    assert!(g.game_state == GameState::Won { winner: addr(1) });
    assert!(g.game_state != GameState::Won { winner: addr(2) });
}

#[test]
fn move_walks_as_far_as_the_energy_spent() {
    let mut g = active_game(vec![player(1, 0, 0, 100), player(2, 20, 20, 50)]);
    assert_eq!(make_move::handler(&mut g, &addr(1), Facing::Up, 3), Ok(()));
    assert_eq!(summary(&g.players[0]), (0, 3, 97, [1; 32], Facing::Up));
    assert_eq!(summary(&g.players[1]), (20, 20, 50, [2; 32], Facing::Down));
    assert_eq!(make_move::handler(&mut g, &addr(1), Facing::Right, 5), Ok(()));
    // (3, 3) holds a block.
    assert_eq!(summary(&g.players[0]), (2, 3, 92, [1; 32], Facing::Right));
}

#[test]
fn move_stops_before_a_block() {
    let mut g = active_game(vec![player(1, 10, 2, 100)]);
    assert_eq!(make_move::handler(&mut g, &addr(1), Facing::Up, 5), Ok(()));
    assert_eq!(summary(&g.players[0]), (10, 4, 95, [1; 32], Facing::Up));
    assert!(g.is_cell_valid(g.players[0].x as usize, g.players[0].y as usize));
}

#[test]
fn move_into_a_block_is_refused_and_changes_nothing() {
    let mut g = active_game(vec![player(1, 9, 5, 100)]);
    let before = summaries(&g);
    assert_eq!(make_move::handler(&mut g, &addr(1), Facing::Right, 2), Err(ChainstrikeError::InvalidMovement));
    assert_eq!(summaries(&g), before);
}

#[test]
fn move_across_the_edge_is_refused() {
    let mut g = active_game(vec![player(1, 0, 0, 100)]);
    assert_eq!(make_move::handler(&mut g, &addr(1), Facing::Down, 1), Err(ChainstrikeError::InvalidMovement));
    assert_eq!(make_move::handler(&mut g, &addr(1), Facing::Left, 4), Err(ChainstrikeError::InvalidMovement));
    let mut g = active_game(vec![player(1, 27, 27, 100)]);
    assert_eq!(make_move::handler(&mut g, &addr(1), Facing::Up, 1), Err(ChainstrikeError::InvalidMovement));
    assert_eq!(make_move::handler(&mut g, &addr(1), Facing::Right, 1), Err(ChainstrikeError::InvalidMovement));
}

#[test]
fn move_down_and_left_stop_at_the_edge() {
    let mut g = active_game(vec![player(1, 2, 1, 100)]);
    assert_eq!(make_move::handler(&mut g, &addr(1), Facing::Down, 4), Ok(()));
    assert_eq!(summary(&g.players[0]), (2, 0, 96, [1; 32], Facing::Down));
    assert_eq!(make_move::handler(&mut g, &addr(1), Facing::Left, 5), Ok(()));
    assert_eq!(summary(&g.players[0]), (0, 0, 91, [1; 32], Facing::Left));
}

#[test]
fn passing_a_recharge_chest_refills_energy() {
    let mut g = active_game(vec![player(1, 1, 12, 10)]);
    assert_eq!(make_move::handler(&mut g, &addr(1), Facing::Up, 3), Ok(()));
    assert_eq!(summary(&g.players[0]), (1, 15, 97, [1; 32], Facing::Up));
}

#[test]
fn a_move_needs_the_energy_it_spends() {
    let mut g = active_game(vec![player(1, 0, 0, 2)]);
    assert_eq!(make_move::handler(&mut g, &addr(1), Facing::Up, 5), Err(ChainstrikeError::NotValidEnergy));
    assert_eq!(summary(&g.players[0]), (0, 0, 2, [1; 32], Facing::Down));
    assert_eq!(make_move::handler(&mut g, &addr(1), Facing::Up, 2), Ok(()));
    assert_eq!(summary(&g.players[0]), (0, 2, 0, [1; 32], Facing::Up));
    assert_eq!(make_move::handler(&mut g, &addr(1), Facing::Up, 1), Err(ChainstrikeError::NotValidEnergy));
}

#[test]
fn a_move_charges_the_energy_chosen_however_far_it_goes() {
    let mut g = active_game(vec![player(1, 10, 2, 100)]);
    assert_eq!(make_move::handler(&mut g, &addr(1), Facing::Up, 5), Ok(()));
    assert_eq!(summary(&g.players[0]), (10, 4, 95, [1; 32], Facing::Up));
}

#[test]
fn move_player_by_index() {
    let mut g = active_game(vec![player(1, 0, 0, 9), player(2, 6, 4, 9)]);
    assert_eq!(make_move::move_player(&mut g, 1, Facing::Down, 2), Ok(()));
    assert_eq!(summary(&g.players[1]), (6, 2, 7, [2; 32], Facing::Down));
    assert!(g.is_cell_valid(6, 2));
    assert_eq!(make_move::move_player(&mut g, 0, Facing::Down, 1), Err(ChainstrikeError::InvalidMovement));
    assert_eq!(make_move::move_player(&mut g, 0, Facing::Up, 10), Err(ChainstrikeError::NotValidEnergy));
}

#[test]
fn move_errors() {
    let mut waiting = Game::default();
    waiting.players.push(player(1, 0, 0, 100));
    assert_eq!(make_move::handler(&mut waiting, &addr(1), Facing::Up, 1), Err(ChainstrikeError::GameEnded));
    let mut g = active_game(vec![player(1, 0, 0, 100)]);
    assert_eq!(make_move::handler(&mut g, &addr(9), Facing::Up, 1), Err(ChainstrikeError::PlayerNotFound));
    assert_eq!(make_move::handler(&mut g, &addr(1), Facing::Up, 6), Err(ChainstrikeError::NotValidEnergy));
    assert_eq!(make_move::handler(&mut g, &addr(1), Facing::Up, 0), Err(ChainstrikeError::InvalidMovement));
    assert_eq!(summary(&g.players[0]), (0, 0, 100, [1; 32], Facing::Down));
}

#[test]
fn move_uses_the_first_player_with_the_address() {
    let mut g = active_game(vec![player(1, 0, 0, 100), player(1, 5, 5, 100)]);
    assert_eq!(make_move::handler(&mut g, &addr(1), Facing::Up, 1), Ok(()));
    assert_eq!(summary(&g.players[0]), (0, 1, 99, [1; 32], Facing::Up));
    assert_eq!(summary(&g.players[1]), (5, 5, 100, [1; 32], Facing::Down));
}

#[test]
fn explosion_drains_neighbours_only() {
    let mut g = active_game(vec![
        player(1, 5, 5, 50),
        player(2, 6, 6, 70),
        player(3, 4, 5, 70),
        player(4, 5, 5, 30),
        player(5, 7, 5, 70),
        player(6, 5, 3, 70),
    ]);
    assert_eq!(explode::handler(&mut g, &addr(1)), Ok(()));
    let e: Vec<u8> = g.players.iter().map(|p| p.energy).collect();
    assert_eq!(e, vec![30, 0, 0, 0, 70, 70]);
    assert_eq!(summary(&g.players[1]), (6, 6, 0, [2; 32], Facing::Down));
}

#[test]
fn explosion_cost_saturates_and_respects_the_edge() {
    let mut g = active_game(vec![player(1, 0, 0, 5), player(2, 1, 1, 9), player(3, 27, 27, 9)]);
    assert_eq!(explode::handler(&mut g, &addr(1)), Ok(()));
    let e: Vec<u8> = g.players.iter().map(|p| p.energy).collect();
    assert_eq!(e, vec![0, 0, 9]);
    assert_eq!(explode::handler(&mut g, &addr(1)), Err(ChainstrikeError::NotValidEnergy));
}

#[test]
fn chainstrike_explosion_errors() {
    let mut g = Game::default();
    g.players.push(player(1, 0, 0, 100));
    assert_eq!(explode::handler(&mut g, &addr(1)), Err(ChainstrikeError::GameEnded));
    let mut g = active_game(vec![player(1, 0, 0, 100)]);
    assert_eq!(explode::handler(&mut g, &addr(2)), Err(ChainstrikeError::PlayerNotFound));
    g.game_state = GameState::Won { winner: addr(1) };
    assert_eq!(explode::handler(&mut g, &addr(1)), Err(ChainstrikeError::GameEnded));
}
