use std::str::FromStr;

use arena_programs::address::Address;
use arena_programs::kamikazejoe::checks::{
    SessionToken,
    check_address,
    check_session_token,
    check_session_token_at,
    session_expiry,
};
use arena_programs::kamikazejoe::errors::{InstructionError, KamikazeJoeError};
use arena_programs::kamikazejoe::ids::id;
use arena_programs::kamikazejoe::instructions::claim_prize::{AccountBalance, PrizeTransfer};
use arena_programs::kamikazejoe::instructions::{
    claim_prize,
    claim_prize_soar,
    create_game,
    create_matches,
    explode,
    initialize_leaderboard,
    join_game,
};
use arena_programs::kamikazejoe::states::game::{Facing, Game, GameState, Player};
use arena_programs::kamikazejoe::states::matches::Matches;
use arena_programs::kamikazejoe::states::user::User;
use solana_program::program_error::ProgramError;
use solana_program::pubkey::Pubkey;

const USER_SEED: &[u8] = b"user-pda";

fn addr(k: u8) -> Address {
    Address::new([k; 32])
}

fn player(k: u8, x: u8, y: u8, energy: u8) -> Player {
    Player { x, y, energy, address: addr(k), facing: Facing::Down }
}

fn user_of(k: u8) -> (Address, User) {
    let user = User { authority: addr(k), games: 0, won: 0 };
    let (key, _) = User::pda(USER_SEED, &user.authority);
    (key, user)
}

fn energies(g: &Game) -> Vec<u8> {
    g.players.iter().map(|p| p.energy).collect()
}

fn is_program_error(r: &Result<(), InstructionError>, e: KamikazeJoeError) -> bool {
    matches!(r, Err(InstructionError::Program(f)) if *f == e)
}

#[test]
fn address_check() {
    assert!(check_address(&addr(1), &addr(1), "system_program").is_ok());
    assert!(matches!(check_address(&addr(1), &addr(2), "system_program"), Err(InstructionError::InvalidArgument)));
}

#[test]
fn session_without_token() {
    assert!(check_session_token(None, &addr(1), &addr(1), &id()).is_ok());
    let r = check_session_token(None, &addr(2), &addr(1), &id());
    assert!(is_program_error(&r, KamikazeJoeError::InvalidUser));
}

fn session_token_key(payer: &Address, authority: &Address) -> Address {
    let program = Pubkey::from_str("3ao63wcSRNa76bncC2M3KupNtXBFiDyNbgK52VG7dLaE").unwrap();
    let target = Pubkey::new_from_array(id().bytes);
    let (key, _) = Pubkey::find_program_address(
        &[b"session_token", target.as_ref(), &payer.bytes, &authority.bytes],
        &program,
    );
    Address::new(key.to_bytes())
}

#[test]
fn session_with_token() {
    let payer = addr(9);
    let authority = addr(1);
    let good = SessionToken { key: session_token_key(&payer, &authority), authority, valid_until: 100 };
    let other_authority = SessionToken { key: good.key, authority: addr(2), valid_until: 100 };
    let r = check_session_token(Some(other_authority), &payer, &authority, &id());
    assert!(matches!(r, Err(InstructionError::InvalidSessionToken)));
    let wrong_key = SessionToken { key: addr(3), authority, valid_until: 100 };
    let r = check_session_token(Some(wrong_key), &payer, &authority, &id());
    assert!(matches!(r, Err(InstructionError::InvalidSessionToken)));
    // Off-chain the clock cannot be read, so a well-formed token ends there.
    let r = check_session_token(Some(good), &payer, &authority, &id());
    assert!(matches!(r, Err(InstructionError::Sysvar(ProgramError::UnsupportedSysvar))));
}

#[test]
fn session_checks_at_a_given_time() {
    let payer = addr(9);
    let authority = addr(1);
    let good = SessionToken { key: session_token_key(&payer, &authority), authority, valid_until: 100 };
    assert!(check_session_token_at(Some(good), &payer, &authority, &id(), Ok(99)).is_ok());
    let r = check_session_token_at(Some(good), &payer, &authority, &id(), Ok(100));
    assert!(matches!(r, Err(InstructionError::InvalidSessionToken)));
    let r = check_session_token_at(Some(good), &payer, &authority, &id(), Err(ProgramError::UnsupportedSysvar));
    assert!(matches!(r, Err(InstructionError::Sysvar(ProgramError::UnsupportedSysvar))));
    let wrong_key = SessionToken { key: addr(3), authority, valid_until: 100 };
    let r = check_session_token_at(Some(wrong_key), &payer, &authority, &id(), Ok(0));
    assert!(matches!(r, Err(InstructionError::InvalidSessionToken)));
    assert!(check_session_token_at(None, &authority, &authority, &id(), Err(ProgramError::UnsupportedSysvar)).is_ok());
    let r = check_session_token_at(None, &payer, &authority, &id(), Ok(0));
    assert!(is_program_error(&r, KamikazeJoeError::InvalidUser));
}

#[test]
fn exploding_through_a_session_key() {
    let (key, user) = user_of(1);
    let session_key = addr(9);
    let token = SessionToken { key: session_token_key(&session_key, &user.authority), authority: user.authority, valid_until: 100 };
    let mut g = running_game(vec![player(1, 5, 5, 10), player(2, 6, 4, 80), player(3, 9, 9, 80)]);
    let r = explode::handler_at(&mut g, &key, &user, &session_key, Some(token), USER_SEED, Ok(100));
    assert!(matches!(r, Err(InstructionError::InvalidSessionToken)));
    assert_eq!(energies(&g), vec![10, 80, 80]);
    let r = explode::handler_at(&mut g, &key, &user, &session_key, Some(token), USER_SEED, Ok(50));
    assert!(r.is_ok());
    assert_eq!(energies(&g), vec![80, 0, 80]);
    let r = explode::handler_at(&mut g, &addr(77), &user, &session_key, Some(token), USER_SEED, Ok(50));
    assert!(is_program_error(&r, KamikazeJoeError::InvalidAuthority));
}

#[test]
fn session_expiry_verdicts() {
    assert!(session_expiry(100, Ok(99)).is_ok());
    assert!(matches!(session_expiry(100, Ok(100)), Err(InstructionError::InvalidSessionToken)));
    assert!(matches!(session_expiry(100, Ok(101)), Err(InstructionError::InvalidSessionToken)));
    assert!(matches!(
        session_expiry(100, Err(ProgramError::UnsupportedSysvar)),
        Err(InstructionError::Sysvar(ProgramError::UnsupportedSysvar))
    ));
}

#[test]
fn joining_takes_a_free_cell_and_starts_the_game() {
    let mut g = Game::default();
    let (_, mut u1) = user_of(1);
    let (_, mut u2) = user_of(2);
    assert_eq!(join_game::handler(&mut g, &mut u1, &addr(1), 0, 0), Ok(Some(100_000_000)));
    assert!(g.game_state == GameState::Waiting);
    assert_eq!(u1.games, 1);
    assert_eq!(join_game::handler(&mut g, &mut u2, &addr(2), 1, 15), Ok(Some(100_000_000)));
    assert!(g.game_state == GameState::Active);
    assert_eq!(g.players.len(), 2);
    let p = &g.players[1];
    assert_eq!((p.x, p.y, p.energy, p.address.bytes, p.facing), (1, 15, 100, [2; 32], Facing::Down));
    assert!(g.players.iter().all(|q| g.is_cell_valid(q.x as usize, q.y as usize)));
}

#[test]
fn joining_a_free_game_charges_nothing() {
    let mut g = Game::default();
    g.ticket_price = 0;
    let (_, mut u) = user_of(1);
    assert_eq!(join_game::handler(&mut g, &mut u, &addr(1), 2, 2), Ok(None));
}

#[test]
fn joining_errors() {
    let mut g = Game::default();
    let (_, mut u) = user_of(1);
    assert_eq!(join_game::handler(&mut g, &mut u, &addr(1), 4, 5), Err(KamikazeJoeError::InvalidJoin));
    assert_eq!(join_game::handler(&mut g, &mut u, &addr(1), 30, 0), Err(KamikazeJoeError::InvalidJoin));
    g.game_state = GameState::Won { winner: addr(5) };
    assert_eq!(join_game::handler(&mut g, &mut u, &addr(1), 0, 0), Err(KamikazeJoeError::GameEnded));
    assert!(g.players.is_empty());
    assert_eq!(u.games, 0);
}

#[test]
fn creating_a_game() {
    let (_, mut u) = user_of(1);
    let mut matches = Some(Matches::default());
    let g = create_game::handler(&addr(1), &addr(40), &mut u, &mut matches, Some(20), None, Some(7), Some(5))
        .unwrap();
    assert_eq!((g.width, g.height, g.seed, g.ticket_price), (20, 30, 7, 5));
    assert_eq!(g.owner.bytes, [1; 32]);
    assert!(g.game_state == GameState::Waiting);
    assert_eq!(u.games, 1);
    assert_eq!(matches.unwrap().active_games[0].bytes, [40; 32]);
    let mut none = None;
    let g = create_game::handler(&addr(1), &addr(41), &mut u, &mut none, None, None, None, None).unwrap();
    assert_eq!((g.width, g.height, g.seed, g.ticket_price), (30, 30, 0, 100_000_000));
    assert!(none.is_none());
}

#[test]
fn creating_a_game_without_cells_is_refused() {
    let (_, mut u) = user_of(1);
    let mut matches = Some(Matches::default());
    let r = create_game::handler(&addr(1), &addr(40), &mut u, &mut matches, Some(0), Some(0), None, None);
    assert_eq!(r.map(|g| g.width).err(), Some(KamikazeJoeError::InvalidSize));
    assert_eq!(u.games, 0);
    assert!(matches.unwrap().active_games.is_empty());
    let r = create_game::handler(&addr(1), &addr(40), &mut u, &mut None, Some(0), Some(3), None, None);
    assert!(r.is_ok());
}

#[test]
fn creating_the_list_and_the_leaderboard() {
    assert!(create_matches::handler().active_games.is_empty());
    let l = initialize_leaderboard::handler(addr(1), addr(2), addr(3));
    assert_eq!((l.game.bytes, l.leaderboard.bytes, l.top_entries.bytes), ([1; 32], [2; 32], [3; 32]));
}

fn running_game(players: Vec<Player>) -> Game {
    let mut g = Game::default();
    g.game_state = GameState::Active;
    g.players = players;
    g
}

#[test]
fn exploding_next_to_players_kills_them_and_refills() {
    let (key, user) = user_of(1);
    let mut g = running_game(vec![player(1, 5, 5, 10), player(2, 6, 4, 80), player(3, 9, 9, 80)]);
    let r = explode::handler(&mut g, &key, &user, &addr(1), None, USER_SEED);
    assert!(r.is_ok());
    assert_eq!(energies(&g), vec![80, 0, 80]);
    assert!(g.game_state == GameState::Active);
}

#[test]
fn exploding_without_a_kill_costs_energy() {
    let (key, user) = user_of(1);
    let mut g = running_game(vec![player(1, 5, 5, 15), player(2, 9, 9, 80)]);
    assert!(explode::handler(&mut g, &key, &user, &addr(1), None, USER_SEED).is_ok());
    assert_eq!(energies(&g), vec![0, 80]);
    let r = explode::handler(&mut g, &key, &user, &addr(1), None, USER_SEED);
    assert!(is_program_error(&r, KamikazeJoeError::NotValidEnergy));
}

#[test]
fn the_last_kill_wins_the_game() {
    let (key, user) = user_of(1);
    let mut g = running_game(vec![player(1, 5, 5, 50), player(2, 5, 6, 80), player(3, 9, 9, 0)]);
    assert!(explode::handler(&mut g, &key, &user, &addr(1), None, USER_SEED).is_ok());
    assert!(g.game_state == GameState::Won { winner: addr(1) });
    let r = explode::handler(&mut g, &key, &user, &addr(1), None, USER_SEED);
    assert!(is_program_error(&r, KamikazeJoeError::GameEnded));
}

#[test]
fn exploding_respects_the_arena_edge() {
    let (key, user) = user_of(1);
    let mut g = running_game(vec![player(1, 0, 0, 50), player(2, 1, 1, 80), player(3, 255, 255, 80)]);
    g.width = 2;
    g.height = 2;
    assert!(explode::handler(&mut g, &key, &user, &addr(1), None, USER_SEED).is_ok());
    assert_eq!(energies(&g), vec![80, 0, 80]);
}

#[test]
fn kamikaze_explosion_errors() {
    let (key, user) = user_of(1);
    let mut g = running_game(vec![player(1, 5, 5, 50)]);
    let r = explode::handler(&mut g, &addr(77), &user, &addr(1), None, USER_SEED);
    assert!(is_program_error(&r, KamikazeJoeError::InvalidAuthority));
    let r = explode::handler(&mut g, &key, &user, &addr(2), None, USER_SEED);
    assert!(is_program_error(&r, KamikazeJoeError::InvalidUser));
    let (key2, user2) = user_of(2);
    let r = explode::handler(&mut g, &key2, &user2, &addr(2), None, USER_SEED);
    assert!(is_program_error(&r, KamikazeJoeError::PlayerNotFound));
    assert_eq!(energies(&g), vec![50]);
}

fn won_game() -> Game {
    let mut g = Game::default();
    g.ticket_price = 100;
    g.players = vec![player(1, 0, 0, 10), player(2, 0, 0, 0), player(3, 0, 0, 0)];
    g.game_state = GameState::Won { winner: addr(1) };
    g
}

fn payer_of(k: u8, lamports: u64) -> AccountBalance {
    AccountBalance { key: addr(k), lamports }
}

#[test]
fn the_winner_claims_ninety_percent_once() {
    let (key, mut user) = user_of(1);
    let mut g = won_game();
    let system = Address::new([0; 32]);
    let t: PrizeTransfer =
        claim_prize::handler(&mut g, &key, &mut user, &payer_of(1, 1_000), None, &system, 500, USER_SEED).unwrap();
    assert_eq!(t.receiver.bytes, [1; 32]);
    assert_eq!(t.payout, 270);
    assert_eq!((t.vault_lamports, t.receiver_lamports), (230, 1_270));
    assert!(g.prize_claimed);
    assert_eq!(user.won, 1);
    let again = claim_prize::handler(&mut g, &key, &mut user, &payer_of(1, 1_270), None, &system, 230, USER_SEED);
    assert!(matches!(again, Err(InstructionError::Program(KamikazeJoeError::InvalidClaim))));
    assert_eq!(user.won, 1);
}

#[test]
fn a_delegate_of_the_winner_may_receive_the_prize() {
    let (key, mut user) = user_of(1);
    let mut g = won_game();
    let system = Address::new([0; 32]);
    let t = claim_prize::handler(
        &mut g,
        &key,
        &mut user,
        &payer_of(9, 5),
        Some(payer_of(1, 10)),
        &system,
        300,
        USER_SEED,
    )
    .unwrap();
    assert_eq!((t.receiver.bytes, t.vault_lamports, t.receiver_lamports), ([1; 32], 30, 280));
}

#[test]
fn claim_errors() {
    let (key, mut user) = user_of(1);
    let system = Address::new([0; 32]);
    let mut g = won_game();
    let r = claim_prize::handler(&mut g, &addr(50), &mut user, &payer_of(1, 0), None, &system, 500, USER_SEED);
    assert!(matches!(r, Err(InstructionError::Program(KamikazeJoeError::InvalidAuthority))));
    let r = claim_prize::handler(&mut g, &key, &mut user, &payer_of(1, 0), Some(payer_of(2, 0)), &system, 500, USER_SEED);
    assert!(matches!(r, Err(InstructionError::Program(KamikazeJoeError::InvalidAuthority))));
    let r = claim_prize::handler(&mut g, &key, &mut user, &payer_of(1, 0), None, &addr(5), 500, USER_SEED);
    assert!(matches!(r, Err(InstructionError::InvalidArgument)));
    let r = claim_prize::handler(&mut g, &key, &mut user, &payer_of(2, 0), None, &system, 500, USER_SEED);
    assert!(matches!(r, Err(InstructionError::Program(KamikazeJoeError::InvalidClaim))));
    let r = claim_prize::handler(&mut g, &key, &mut user, &payer_of(1, 0), None, &system, 269, USER_SEED);
    assert!(matches!(r, Err(InstructionError::Program(KamikazeJoeError::Overflow))));
    let r = claim_prize::handler(&mut g, &key, &mut user, &payer_of(1, u64::MAX - 269), None, &system, 500, USER_SEED);
    assert!(matches!(r, Err(InstructionError::Program(KamikazeJoeError::Overflow))));
    assert!(!g.prize_claimed);
    assert_eq!(user.won, 0);
    let mut free = won_game();
    free.ticket_price = 0;
    let r = claim_prize::handler(&mut free, &key, &mut user, &payer_of(1, 0), None, &system, 500, USER_SEED);
    assert!(matches!(r, Err(InstructionError::Program(KamikazeJoeError::InvalidClaim))));
}

#[test]
fn claims_that_would_run_out_of_range_are_reported() {
    let (key, mut user) = user_of(1);
    let system = Address::new([0; 32]);
    let mut g = won_game();
    g.ticket_price = u64::MAX / 2;
    let r = claim_prize::handler_checked(&mut g, &key, &mut user, &payer_of(1, 0), None, &system, 500, USER_SEED);
    assert!(r.is_none());
    assert!(!g.prize_claimed);
    user.won = u32::MAX;
    let mut g = won_game();
    let r = claim_prize_soar::handler_checked(&mut g, &key, &mut user, &payer_of(1, 0), None, &system, 500, USER_SEED, Ok(()));
    assert!(r.is_none());
    let mut g = won_game();
    user.won = 0;
    let r = claim_prize::handler_checked(&mut g, &key, &mut user, &payer_of(1, 0), None, &system, 500, USER_SEED);
    assert!(matches!(r, Some(Ok(_))));
}

#[test]
fn the_scored_claim_reports_the_wins() {
    let (key, mut user) = user_of(1);
    user.won = 4;
    let mut g = won_game();
    let system = Address::new([0; 32]);
    let score = claim_prize_soar::score_to_submit(&g, &key, &user, &payer_of(1, 0), None, &system, USER_SEED);
    assert_eq!(score.unwrap(), 5);
    let s = claim_prize_soar::handler(&mut g, &key, &mut user, &payer_of(1, 0), None, &system, 270, USER_SEED, Ok(()))
        .unwrap();
    assert_eq!(s.score, 5);
    assert_eq!(user.won, 5);
    assert_eq!((s.transfer.payout, s.transfer.vault_lamports, s.transfer.receiver_lamports), (270, 0, 270));
    let r = claim_prize_soar::handler(&mut g, &key, &mut user, &payer_of(1, 0), None, &system, 270, USER_SEED, Ok(()));
    assert!(matches!(r, Err(InstructionError::Program(KamikazeJoeError::InvalidClaim))));
    let score = claim_prize_soar::score_to_submit(&g, &key, &user, &payer_of(1, 0), None, &system, USER_SEED);
    assert!(matches!(score, Err(InstructionError::Program(KamikazeJoeError::InvalidClaim))));
}

#[test]
fn a_refused_report_refuses_the_claim() {
    let (key, mut user) = user_of(1);
    let mut g = won_game();
    let system = Address::new([0; 32]);
    let refused = Err(InstructionError::Cpi(ProgramError::InvalidAccountData));
    let r = claim_prize_soar::handler(&mut g, &key, &mut user, &payer_of(1, 0), None, &system, 270, USER_SEED, refused);
    assert!(matches!(r, Err(InstructionError::Cpi(ProgramError::InvalidAccountData))));
    assert!(!g.prize_claimed);
    assert_eq!(user.won, 0);
    // The report comes before the prize: with too little in the vault, the
    // refused report is the error.
    let refused = Err(InstructionError::Cpi(ProgramError::InvalidAccountData));
    let r = claim_prize_soar::handler(&mut g, &key, &mut user, &payer_of(1, 0), None, &system, 0, USER_SEED, refused);
    assert!(matches!(r, Err(InstructionError::Cpi(ProgramError::InvalidAccountData))));
    let r = claim_prize_soar::handler(&mut g, &key, &mut user, &payer_of(1, 0), None, &system, 0, USER_SEED, Ok(()));
    assert!(matches!(r, Err(InstructionError::Program(KamikazeJoeError::Overflow))));
    assert!(!g.prize_claimed);
    // The checks come before the report.
    let refused = Err(InstructionError::Cpi(ProgramError::InvalidAccountData));
    let r = claim_prize_soar::handler(&mut g, &key, &mut user, &payer_of(2, 0), None, &system, 270, USER_SEED, refused);
    assert!(matches!(r, Err(InstructionError::Program(KamikazeJoeError::InvalidClaim))));
}

#[test]
fn a_scored_claim_out_of_range_is_reported() {
    let (key, mut user) = user_of(1);
    let system = Address::new([0; 32]);
    let mut g = won_game();
    g.ticket_price = u64::MAX / 2;
    let refused = Err(InstructionError::Cpi(ProgramError::InvalidAccountData));
    let r = claim_prize_soar::handler_checked(&mut g, &key, &mut user, &payer_of(1, 0), None, &system, 500, USER_SEED, refused);
    assert!(matches!(r, Some(Err(InstructionError::Cpi(ProgramError::InvalidAccountData)))));
    let r = claim_prize_soar::handler_checked(&mut g, &key, &mut user, &payer_of(1, 0), None, &system, 500, USER_SEED, Ok(()));
    assert!(r.is_none());
    assert!(!g.prize_claimed);
}
