use game_suite::keys::Pubkey;
use game_suite::solitaire::{
    complete_game, initialize_game, make_move, withdraw_stake, GameAccount, GameStatus,
    GameState, SolitaireError, SolitaireEvent,
};
use game_suite::token::{DerivedSigner, SeedTuple, TokenAuthority, TokenOp};

fn key(id: u64) -> Pubkey {
    Pubkey::new(id)
}

fn fresh_game(log: &mut Vec<SolitaireEvent>) -> (GameAccount, TokenOp) {
    initialize_game(
        key(1),
        "g1".to_string(),
        100,
        key(2),
        251,
        key(3),
        key(4),
        1_000,
        log,
    )
    .unwrap()
}

#[test]
fn initialize_game_escrows_the_stake() {
    let mut log: Vec<SolitaireEvent> = Vec::new();
    let (g, op) = fresh_game(&mut log);
    assert_eq!(g.authority, key(1));
    assert_eq!(g.game_id, "g1");
    assert_eq!(g.stake_amount, 100);
    assert_eq!(g.status, GameStatus::Active);
    assert_eq!(g.moves, 0);
    assert_eq!(g.score, 0);
    assert!(!g.is_won);
    assert_eq!(g.created_at, 1_000);
    assert_eq!(g.updated_at, 1_000);
    assert_eq!(g.bump, 251);
    assert_eq!(g.game_state.player, key(1));
    assert_eq!(g.game_state.moves, 0);
    assert_eq!(
        op,
        TokenOp::Transfer {
            from: key(3),
            to: key(4),
            amount: 100,
            authority: TokenAuthority::User { key: key(1) },
        }
    );
    assert_eq!(log.len(), 1);
}

#[test]
fn initialize_game_rejects_bad_inputs() {
    let mut log: Vec<SolitaireEvent> = Vec::new();
    let r = initialize_game(key(1), "g1".to_string(), 0, key(2), 0, key(3), key(4), 0, &mut log);
    assert_eq!(r.unwrap_err(), SolitaireError::InvalidStakeAmount);
    let r = initialize_game(
        key(1),
        "g".repeat(33),
        10,
        key(2),
        0,
        key(3),
        key(4),
        0,
        &mut log,
    );
    assert_eq!(r.unwrap_err(), SolitaireError::GameIdTooLong);
    assert_eq!(log.len(), 0);
}

#[test]
fn two_moves_then_losing_completion_pays_half() {
    let mut log: Vec<SolitaireEvent> = Vec::new();
    let (mut g, _) = fresh_game(&mut log);
    make_move(&mut g, key(1), "t1".to_string(), "f1".to_string(), 0, 1_010, &mut log).unwrap();
    make_move(&mut g, key(1), "t2".to_string(), "f1".to_string(), 1, 1_020, &mut log).unwrap();
    assert_eq!(g.moves, 2);
    assert_eq!(g.score, 20);
    assert_eq!(g.game_state.moves, 2);
    assert_eq!(g.game_state.score, 20);
    assert_eq!(g.updated_at, 1_020);
    assert_eq!(g.status, GameStatus::Active);
    let op = complete_game(&mut g, key(1), 42, key(4), key(3), 1_030, &mut log).unwrap();
    assert_eq!(
        op,
        TokenOp::Transfer {
            from: key(4),
            to: key(3),
            amount: 50,
            authority: TokenAuthority::Program {
                signer: DerivedSigner {
                    seeds: SeedTuple::Escrow { game_id: "g1".to_string() },
                    bump: 251,
                },
            },
        }
    );
    assert_eq!(g.status, GameStatus::Completed);
    assert_eq!(g.score, 42);
    assert!(!g.is_won);
    // one GameStarted, two MoveMade, one GameCompleted
    assert_eq!(log.len(), 4);
    match &log[3] {
        SolitaireEvent::GameCompleted(e) => {
            assert!(!e.won);
            assert_eq!(e.score, 42);
            assert_eq!(e.moves, 2);
        }
        _ => panic!("wrong event"),
    }
}

#[test]
fn completing_a_won_game_pays_double() {
    let mut log: Vec<SolitaireEvent> = Vec::new();
    let (mut g, _) = fresh_game(&mut log);
    g.game_state.is_won = true;
    let op = complete_game(&mut g, key(1), 99, key(4), key(3), 1_030, &mut log).unwrap();
    match op {
        TokenOp::Transfer { amount, .. } => assert_eq!(amount, 200),
        _ => panic!("wrong op"),
    }
    assert!(g.is_won);
    assert_eq!(g.status, GameStatus::Completed);
}

#[test]
fn a_winning_move_completes_the_game() {
    let mut log: Vec<SolitaireEvent> = Vec::new();
    let (mut g, _) = fresh_game(&mut log);
    g.game_state.is_won = true;
    make_move(&mut g, key(1), "t1".to_string(), "f1".to_string(), 0, 1_010, &mut log).unwrap();
    assert_eq!(g.status, GameStatus::Completed);
    assert!(g.is_won);
    assert_eq!(g.moves, 1);
    // the winning move appends GameCompleted and then MoveMade
    assert_eq!(log.len(), 3);
    assert!(matches!(&log[1], SolitaireEvent::GameCompleted(_)));
    assert!(matches!(&log[2], SolitaireEvent::MoveMade(_)));
}

#[test]
fn moves_after_completion_are_rejected() {
    let mut log: Vec<SolitaireEvent> = Vec::new();
    let (mut g, _) = fresh_game(&mut log);
    complete_game(&mut g, key(1), 0, key(4), key(3), 1_030, &mut log).unwrap();
    let before = log.len();
    let r = make_move(&mut g, key(1), "t1".to_string(), "f1".to_string(), 0, 1_040, &mut log);
    assert_eq!(r.unwrap_err(), SolitaireError::GameNotActive);
    let r = complete_game(&mut g, key(1), 7, key(4), key(3), 1_050, &mut log);
    assert_eq!(r.unwrap_err(), SolitaireError::GameNotActive);
    let r = withdraw_stake(&mut g, key(1), key(4), key(3), 1_000_000, &mut log);
    assert_eq!(r.unwrap_err(), SolitaireError::GameNotActive);
    assert_eq!(g.moves, 0);
    assert_eq!(log.len(), before);
}

#[test]
fn moves_by_strangers_are_rejected() {
    let mut log: Vec<SolitaireEvent> = Vec::new();
    let (mut g, _) = fresh_game(&mut log);
    let r = make_move(&mut g, key(9), "t1".to_string(), "f1".to_string(), 0, 1_010, &mut log);
    assert_eq!(r.unwrap_err(), SolitaireError::Unauthorized);
    let r = complete_game(&mut g, key(9), 7, key(4), key(3), 1_010, &mut log);
    assert_eq!(r.unwrap_err(), SolitaireError::Unauthorized);
    let r = withdraw_stake(&mut g, key(9), key(4), key(3), 1_000_000, &mut log);
    assert_eq!(r.unwrap_err(), SolitaireError::Unauthorized);
    assert_eq!(g.moves, 0);
}

#[test]
fn withdraw_waits_a_full_day() {
    let mut log: Vec<SolitaireEvent> = Vec::new();
    let (mut g, _) = fresh_game(&mut log);
    // 86_399 seconds of inactivity: one second too early
    let r = withdraw_stake(&mut g, key(1), key(4), key(3), 1_000 + 86_399, &mut log);
    assert_eq!(r.unwrap_err(), SolitaireError::WithdrawalTooEarly);
    assert_eq!(g.status, GameStatus::Active);
    // exactly 86_400: refunded with the 10% penalty retained
    let op = withdraw_stake(&mut g, key(1), key(4), key(3), 1_000 + 86_400, &mut log).unwrap();
    assert_eq!(
        op,
        TokenOp::Transfer {
            from: key(4),
            to: key(3),
            amount: 90,
            authority: TokenAuthority::Program {
                signer: DerivedSigner {
                    seeds: SeedTuple::Escrow { game_id: "g1".to_string() },
                    bump: 251,
                },
            },
        }
    );
    assert_eq!(g.status, GameStatus::Abandoned);
    match &log[1] {
        SolitaireEvent::StakeWithdrawn(e) => {
            assert_eq!(e.amount, 90);
            assert_eq!(e.penalty, 10);
        }
        _ => panic!("wrong event"),
    }
}

#[test]
fn game_state_counters_advance_per_move() {
    let mut s = GameState::new(key(1), 500);
    assert_eq!(s.moves, 0);
    assert_eq!(s.score, 0);
    assert!(!s.is_won());
    s.make_move("t1", "f1", 0).unwrap();
    assert_eq!(s.moves, 1);
    assert_eq!(s.score, 10);
    assert_eq!(s.start_time, 500);
    assert_eq!(s.end_time, None);
}
