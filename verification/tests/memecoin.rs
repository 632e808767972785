use game_suite::keys::Pubkey;
use game_suite::memecoin::{
    claim_airdrop, distribute_game_rewards, distribute_initial_supply, initialize_memecoin,
    setup_airdrop_account, MemecoinConfig, MemecoinError, MemecoinEvent, RewardBook,
};
use game_suite::token::{DerivedSigner, SeedTuple, TokenAuthority, TokenOp};

fn key(id: u64) -> Pubkey {
    Pubkey::new(id)
}

fn billion_coin(log: &mut Vec<MemecoinEvent>) -> MemecoinConfig {
    initialize_memecoin(
        key(1),
        key(2),
        "MoonCoin".to_string(),
        "MOON".to_string(),
        9,
        1_000_000_000,
        100,
        log,
    )
    .unwrap()
}

#[test]
fn initialize_memecoin_splits_pools() {
    let mut log: Vec<MemecoinEvent> = Vec::new();
    let cfg = billion_coin(&mut log);
    assert_eq!(cfg.total_supply, 1_000_000_000);
    assert_eq!(cfg.circulating_supply, 0);
    assert_eq!(cfg.game_rewards_pool, 400_000_000);
    assert_eq!(cfg.liquidity_pool, 300_000_000);
    assert_eq!(cfg.team_allocation, 200_000_000);
    assert_eq!(cfg.community_allocation, 100_000_000);
    assert!(cfg.is_initialized);
    assert_eq!(log.len(), 1);
}

#[test]
fn initialize_memecoin_rejects_bad_inputs() {
    let mut log: Vec<MemecoinEvent> = Vec::new();
    let r = initialize_memecoin(
        key(1),
        key(2),
        "x".repeat(33),
        "MOON".to_string(),
        9,
        10,
        0,
        &mut log,
    );
    assert_eq!(r.unwrap_err(), MemecoinError::NameTooLong);
    let r = initialize_memecoin(
        key(1),
        key(2),
        "Moon".to_string(),
        "y".repeat(11),
        9,
        10,
        0,
        &mut log,
    );
    assert_eq!(r.unwrap_err(), MemecoinError::SymbolTooLong);
    let r = initialize_memecoin(
        key(1),
        key(2),
        "Moon".to_string(),
        "MOON".to_string(),
        10,
        10,
        0,
        &mut log,
    );
    assert_eq!(r.unwrap_err(), MemecoinError::InvalidDecimals);
    let r = initialize_memecoin(
        key(1),
        key(2),
        "Moon".to_string(),
        "MOON".to_string(),
        9,
        0,
        0,
        &mut log,
    );
    assert_eq!(r.unwrap_err(), MemecoinError::InvalidSupply);
    assert_eq!(log.len(), 0);
}

#[test]
fn distribute_initial_supply_mints_each_pool_once() {
    let mut log: Vec<MemecoinEvent> = Vec::new();
    let mut cfg = billion_coin(&mut log);
    let ops = distribute_initial_supply(
        &mut cfg,
        key(1),
        key(10),
        key(11),
        key(12),
        key(13),
        200,
        &mut log,
    )
    .unwrap();
    let expected_to = [key(10), key(11), key(12), key(13)];
    let expected_amounts = [400_000_000u64, 300_000_000, 200_000_000, 100_000_000];
    assert_eq!(ops.len(), 4);
    for (i, op) in ops.iter().enumerate() {
        assert_eq!(
            *op,
            TokenOp::Mint {
                mint: key(2),
                to: expected_to[i],
                amount: expected_amounts[i],
                authority: TokenAuthority::User { key: key(1) },
            }
        );
    }
    assert_eq!(cfg.circulating_supply, 1_000_000_000);
    assert_eq!(log.len(), 2);
    // a second distribution is blocked
    let r = distribute_initial_supply(
        &mut cfg,
        key(1),
        key(10),
        key(11),
        key(12),
        key(13),
        300,
        &mut log,
    );
    assert_eq!(r.unwrap_err(), MemecoinError::AlreadyDistributed);
    assert_eq!(log.len(), 2);
}

#[test]
fn distribute_initial_supply_rejects_strangers() {
    let mut log: Vec<MemecoinEvent> = Vec::new();
    let mut cfg = billion_coin(&mut log);
    let r = distribute_initial_supply(
        &mut cfg,
        key(9),
        key(10),
        key(11),
        key(12),
        key(13),
        200,
        &mut log,
    );
    assert_eq!(r.unwrap_err(), MemecoinError::Unauthorized);
    assert_eq!(cfg.circulating_supply, 0);
}

#[test]
fn distribute_game_rewards_records_and_pays() {
    let mut log: Vec<MemecoinEvent> = Vec::new();
    let cfg = billion_coin(&mut log);
    let mut book = RewardBook::new();
    let op = distribute_game_rewards(
        &cfg,
        &mut book,
        key(1),
        key(20),
        1_500,
        "g1".to_string(),
        key(30),
        key(31),
        400_000_000,
        42,
        250,
        &mut log,
    )
    .unwrap();
    assert_eq!(
        op,
        TokenOp::Transfer {
            from: key(30),
            to: key(31),
            amount: 1_500,
            authority: TokenAuthority::Program {
                signer: DerivedSigner { seeds: SeedTuple::RewardsPool { mint: key(2) }, bump: 42 },
            },
        }
    );
    assert_eq!(book.entries.len(), 1);
    assert_eq!(book.entries[0].player, key(20));
    assert_eq!(book.entries[0].game_id, "g1");
    assert_eq!(book.entries[0].amount, 1_500);
    assert!(book.contains(key(20), &"g1".to_string()));
    assert!(!book.contains(key(20), &"g2".to_string()));
    assert!(!book.contains(key(21), &"g1".to_string()));
}

#[test]
fn distribute_game_rewards_rejects_bad_inputs() {
    let mut log: Vec<MemecoinEvent> = Vec::new();
    let cfg = billion_coin(&mut log);
    let mut book = RewardBook::new();
    let r = distribute_game_rewards(
        &cfg, &mut book, key(1), key(20), 0, "g1".to_string(), key(30), key(31), 100, 0, 0,
        &mut log,
    );
    assert_eq!(r.unwrap_err(), MemecoinError::InvalidAmount);
    let r = distribute_game_rewards(
        &cfg, &mut book, key(1), key(20), 5, "g".repeat(33), key(30), key(31), 100, 0, 0,
        &mut log,
    );
    assert_eq!(r.unwrap_err(), MemecoinError::GameIdTooLong);
    let r = distribute_game_rewards(
        &cfg, &mut book, key(9), key(20), 5, "g1".to_string(), key(30), key(31), 100, 0, 0,
        &mut log,
    );
    assert_eq!(r.unwrap_err(), MemecoinError::Unauthorized);
    let r = distribute_game_rewards(
        &cfg, &mut book, key(1), key(20), 500, "g1".to_string(), key(30), key(31), 499, 0, 0,
        &mut log,
    );
    assert_eq!(r.unwrap_err(), MemecoinError::InsufficientRewards);
    assert_eq!(book.entries.len(), 0);
    assert_eq!(log.len(), 1);
}

#[test]
fn airdrop_claim_respects_claimable_at() {
    let mut log: Vec<MemecoinEvent> = Vec::new();
    let now = 10_000;
    let mut a = setup_airdrop_account(key(5), key(2), 500, now + 3_600, now, &mut log).unwrap();
    assert!(!a.claimed);
    assert_eq!(a.claimed_at, None);
    // one second early: unavailable
    let r = claim_airdrop(&mut a, key(5), key(40), key(41), 3, now + 3_599, &mut log);
    assert_eq!(r.unwrap_err(), MemecoinError::AirdropNotAvailable);
    assert!(!a.claimed);
    // exactly at the claimable time: paid
    let op = claim_airdrop(&mut a, key(5), key(40), key(41), 3, now + 3_600, &mut log).unwrap();
    assert_eq!(
        op,
        TokenOp::Transfer {
            from: key(40),
            to: key(41),
            amount: 500,
            authority: TokenAuthority::Program {
                signer: DerivedSigner { seeds: SeedTuple::AirdropPool { mint: key(2) }, bump: 3 },
            },
        }
    );
    assert!(a.claimed);
    assert_eq!(a.claimed_at, Some(now + 3_600));
    assert_eq!(log.len(), 2);
    // a second claim is blocked
    let r = claim_airdrop(&mut a, key(5), key(40), key(41), 3, now + 4_000, &mut log);
    assert_eq!(r.unwrap_err(), MemecoinError::AlreadyClaimed);
    assert_eq!(log.len(), 2);
}

#[test]
fn airdrop_setup_rejects_bad_inputs() {
    let mut log: Vec<MemecoinEvent> = Vec::new();
    let r = setup_airdrop_account(key(5), key(2), 0, 100, 50, &mut log);
    assert_eq!(r.unwrap_err(), MemecoinError::InvalidAmount);
    let r = setup_airdrop_account(key(5), key(2), 10, 50, 50, &mut log);
    assert_eq!(r.unwrap_err(), MemecoinError::InvalidClaimTime);
    assert_eq!(log.len(), 0);
}

#[test]
fn airdrop_claim_rejects_strangers() {
    let mut log: Vec<MemecoinEvent> = Vec::new();
    let mut a = setup_airdrop_account(key(5), key(2), 10, 100, 50, &mut log).unwrap();
    let r = claim_airdrop(&mut a, key(6), key(40), key(41), 0, 200, &mut log);
    assert_eq!(r.unwrap_err(), MemecoinError::Unauthorized);
    assert!(!a.claimed);
}

#[test]
fn pool_split_leaves_remainder_unallocated() {
    let mut log: Vec<MemecoinEvent> = Vec::new();
    // 19 is not a multiple of ten: the floor divisions leave 3 unallocated
    let cfg = initialize_memecoin(
        key(1),
        key(2),
        "Moon".to_string(),
        "MOON".to_string(),
        0,
        19,
        0,
        &mut log,
    )
    .unwrap();
    assert_eq!(cfg.game_rewards_pool, 7);
    assert_eq!(cfg.liquidity_pool, 5);
    assert_eq!(cfg.team_allocation, 3);
    assert_eq!(cfg.community_allocation, 1);
    let sum = cfg.game_rewards_pool
        + cfg.liquidity_pool
        + cfg.team_allocation
        + cfg.community_allocation;
    assert!(sum <= cfg.total_supply);
}
