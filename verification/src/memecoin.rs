//! Memecoin program: fixed-supply configuration with 40/30/20/10 pool
//! allocations, one-shot initial distribution, per-(player, game) reward
//! disbursement, and time-gated airdrop claims.
//!
//! Every instruction takes the signed caller and the host clock as plain
//! values, mutates its record, appends its event to `log` exactly on
//! success, and returns the token operations the host must perform.

use vstd::prelude::*;
use vstd::string::StrSliceExecFns;
use vstd::arithmetic::div_mod::{
    lemma_div_multiples_vanish,
    lemma_fundamental_div_mod,
    lemma_mod_division_less_than_divisor,
};
use crate::keys::Pubkey;
use crate::token::{DerivedSigner, SeedTuple, TokenAuthority, TokenOp};

verus! {

pub const MAX_NAME_LEN: usize = 32;
pub const MAX_SYMBOL_LEN: usize = 10;
pub const MAX_DECIMALS: u8 = 9;
pub const MAX_GAME_ID_LEN: usize = 32;
pub const GAME_REWARDS_PERCENT: u64 = 40;
pub const LIQUIDITY_PERCENT: u64 = 30;
pub const TEAM_PERCENT: u64 = 20;
pub const COMMUNITY_PERCENT: u64 = 10;

#[derive(Clone, Copy, PartialEq, Eq, Structural, Debug)]
pub enum MemecoinError {
    NameTooLong,
    SymbolTooLong,
    InvalidDecimals,
    InvalidSupply,
    InvalidAmount,
    GameIdTooLong,
    Unauthorized,
    AlreadyDistributed,
    InsufficientRewards,
    AlreadyClaimed,
    AirdropNotAvailable,
    InvalidClaimTime,
}

/// Configuration record of the memecoin, with the pool allocations fixed at
/// initialization by floor division of the total supply.
#[derive(Debug, PartialEq)]
pub struct MemecoinConfig {
    pub authority: Pubkey,
    pub mint: Pubkey,
    pub token_name: String,
    pub token_symbol: String,
    pub decimals: u8,
    pub total_supply: u64,
    pub circulating_supply: u64,
    pub game_rewards_pool: u64,
    pub liquidity_pool: u64,
    pub team_allocation: u64,
    pub community_allocation: u64,
    pub is_initialized: bool,
    pub created_at: i64,
}

/// Record of one game-reward disbursement, keyed by (player, game_id).
#[derive(Debug, PartialEq)]
pub struct RewardAccount {
    pub player: Pubkey,
    pub game_id: String,
    pub amount: u64,
    pub timestamp: i64,
}

/// The reward records the program owns, one per (player, game_id): the host
/// creates each record at an address derived from its key, so a second
/// record with the same key can never be created.
pub struct RewardBook {
    pub entries: Vec<RewardAccount>,
}

/// Whether two reward records share the (player, game_id) key.
pub open spec fn same_reward_key(a: RewardAccount, b: RewardAccount) -> bool {
    a.player == b.player && a.game_id@ == b.game_id@
}

impl RewardBook {
    pub open spec fn contains_key(self, player: Pubkey, game_id: Seq<char>) -> bool {
        exists|i: int|
            0 <= i < self.entries@.len() && #[trigger] self.entries@[i].player == player
                && self.entries@[i].game_id@ == game_id
    }

    /// Invariant: no two records share a key.
    pub open spec fn wf(self) -> bool {
        forall|i: int, j: int|
            0 <= i < j < self.entries@.len() ==> !same_reward_key(
                #[trigger] self.entries@[i],
                #[trigger] self.entries@[j],
            )
    }

    pub fn new() -> (r: RewardBook)
        ensures
            r.entries@ == Seq::<RewardAccount>::empty(),
            r.wf(),
    {
        RewardBook { entries: Vec::new() }
    }

    /// Whether a reward for (player, game_id) has already been disbursed.
    pub fn contains(&self, player: Pubkey, game_id: &String) -> (b: bool)
        ensures
            b == self.contains_key(player, game_id@),
    {
        let mut i: usize = 0;
        while i < self.entries.len()
            invariant
                0 <= i <= self.entries@.len(),
                forall|k: int|
                    0 <= k < i ==> !(#[trigger] self.entries@[k].player == player
                        && self.entries@[k].game_id@ == game_id@),
            decreases self.entries@.len() - i,
        {
            let e = &self.entries[i];
            if e.player == player && e.game_id == *game_id {
                return true;
            }
            i = i + 1;
        }
        false
    }
}

pub struct MemecoinInitialized {
    pub mint: Pubkey,
    pub name: String,
    pub symbol: String,
    pub total_supply: u64,
    pub authority: Pubkey,
    pub timestamp: i64,
}

pub struct InitialSupplyDistributed {
    pub mint: Pubkey,
    pub total_amount: u64,
    pub timestamp: i64,
}

pub struct GameRewardDistributed {
    pub player: Pubkey,
    pub amount: u64,
    pub game_id: String,
    pub timestamp: i64,
}

pub struct AirdropAccountSetup {
    pub recipient: Pubkey,
    pub amount: u64,
    pub claimable_at: i64,
    pub timestamp: i64,
}

pub struct AirdropClaimed {
    pub recipient: Pubkey,
    pub amount: u64,
    pub timestamp: i64,
}

/// The append-only event log of the memecoin program.
pub enum MemecoinEvent {
    MemecoinInitialized(MemecoinInitialized),
    InitialSupplyDistributed(InitialSupplyDistributed),
    GameRewardDistributed(GameRewardDistributed),
    AirdropAccountSetup(AirdropAccountSetup),
    AirdropClaimed(AirdropClaimed),
}

/// Validation performed by `initialize_memecoin`, in instruction order.
pub open spec fn initialize_memecoin_check(
    name: Seq<char>,
    symbol: Seq<char>,
    decimals: u8,
    total_supply: u64,
) -> Result<(), MemecoinError> {
    if name.len() > MAX_NAME_LEN {
        Err(MemecoinError::NameTooLong)
    } else if symbol.len() > MAX_SYMBOL_LEN {
        Err(MemecoinError::SymbolTooLong)
    } else if decimals > MAX_DECIMALS {
        Err(MemecoinError::InvalidDecimals)
    } else if total_supply == 0 {
        Err(MemecoinError::InvalidSupply)
    } else {
        Ok(())
    }
}

/// Creates the memecoin configuration with nothing yet circulating and the
/// pool allocations fixed by floor division of the total supply at
/// 40/30/20/10 percent.
pub fn initialize_memecoin(
    authority: Pubkey,
    mint: Pubkey,
    token_name: String,
    token_symbol: String,
    decimals: u8,
    total_supply: u64,
    now: i64,
    log: &mut Vec<MemecoinEvent>,
) -> (r: Result<MemecoinConfig, MemecoinError>)
    requires
        initialize_memecoin_check(token_name@, token_symbol@, decimals, total_supply) is Ok
            ==> total_supply * GAME_REWARDS_PERCENT <= u64::MAX,
    ensures
        match r {
            Ok(cfg) => {
                &&& initialize_memecoin_check(token_name@, token_symbol@, decimals, total_supply)
                    is Ok
                &&& cfg == (MemecoinConfig {
                    authority,
                    mint,
                    token_name,
                    token_symbol,
                    decimals,
                    total_supply,
                    circulating_supply: 0,
                    game_rewards_pool: (total_supply * GAME_REWARDS_PERCENT / 100) as u64,
                    liquidity_pool: (total_supply * LIQUIDITY_PERCENT / 100) as u64,
                    team_allocation: (total_supply * TEAM_PERCENT / 100) as u64,
                    community_allocation: (total_supply * COMMUNITY_PERCENT / 100) as u64,
                    is_initialized: true,
                    created_at: now,
                })
                &&& final(log)@ == old(log)@.push(MemecoinEvent::MemecoinInitialized(
                    MemecoinInitialized {
                        mint,
                        name: token_name,
                        symbol: token_symbol,
                        total_supply,
                        authority,
                        timestamp: now,
                    },
                ))
            },
            Err(e) => {
                &&& initialize_memecoin_check(token_name@, token_symbol@, decimals, total_supply)
                    == Err::<(), MemecoinError>(e)
                &&& final(log)@ == old(log)@
            },
        },
{
    if token_name.as_str().unicode_len() > MAX_NAME_LEN {
        return Err(MemecoinError::NameTooLong);
    }
    if token_symbol.as_str().unicode_len() > MAX_SYMBOL_LEN {
        return Err(MemecoinError::SymbolTooLong);
    }
    if decimals > MAX_DECIMALS {
        return Err(MemecoinError::InvalidDecimals);
    }
    if total_supply == 0 {
        return Err(MemecoinError::InvalidSupply);
    }
    log.push(MemecoinEvent::MemecoinInitialized(MemecoinInitialized {
        mint,
        name: token_name.clone(),
        symbol: token_symbol.clone(),
        total_supply,
        authority,
        timestamp: now,
    }));
    Ok(MemecoinConfig {
        authority,
        mint,
        token_name,
        token_symbol,
        decimals,
        total_supply,
        circulating_supply: 0,
        game_rewards_pool: total_supply * GAME_REWARDS_PERCENT / 100,
        liquidity_pool: total_supply * LIQUIDITY_PERCENT / 100,
        team_allocation: total_supply * TEAM_PERCENT / 100,
        community_allocation: total_supply * COMMUNITY_PERCENT / 100,
        is_initialized: true,
        created_at: now,
    })
}

/// Validation performed by `distribute_initial_supply`, in instruction
/// order.
pub open spec fn distribute_initial_supply_check(cfg: MemecoinConfig, caller: Pubkey) -> Result<
    (),
    MemecoinError,
> {
    if caller != cfg.authority {
        Err(MemecoinError::Unauthorized)
    } else if cfg.circulating_supply != 0 {
        Err(MemecoinError::AlreadyDistributed)
    } else {
        Ok(())
    }
}

/// Mints each pool's allocation to its token account, in the fixed order
/// game rewards, liquidity, team, community, and marks the whole supply as
/// circulating. Blocked by `AlreadyDistributed` once anything circulates.
pub fn distribute_initial_supply(
    cfg: &mut MemecoinConfig,
    caller: Pubkey,
    game_rewards_account: Pubkey,
    liquidity_account: Pubkey,
    team_account: Pubkey,
    community_account: Pubkey,
    now: i64,
    log: &mut Vec<MemecoinEvent>,
) -> (r: Result<Vec<TokenOp>, MemecoinError>)
    ensures
        match r {
            Ok(ops) => {
                &&& distribute_initial_supply_check(*old(cfg), caller) is Ok
                &&& ops@ == seq![
                    TokenOp::Mint {
                        mint: old(cfg).mint,
                        to: game_rewards_account,
                        amount: old(cfg).game_rewards_pool,
                        authority: TokenAuthority::User { key: caller },
                    },
                    TokenOp::Mint {
                        mint: old(cfg).mint,
                        to: liquidity_account,
                        amount: old(cfg).liquidity_pool,
                        authority: TokenAuthority::User { key: caller },
                    },
                    TokenOp::Mint {
                        mint: old(cfg).mint,
                        to: team_account,
                        amount: old(cfg).team_allocation,
                        authority: TokenAuthority::User { key: caller },
                    },
                    TokenOp::Mint {
                        mint: old(cfg).mint,
                        to: community_account,
                        amount: old(cfg).community_allocation,
                        authority: TokenAuthority::User { key: caller },
                    },
                ]
                &&& *final(cfg) == (MemecoinConfig {
                    circulating_supply: old(cfg).total_supply,
                    ..*old(cfg)
                })
                &&& final(log)@ == old(log)@.push(MemecoinEvent::InitialSupplyDistributed(
                    InitialSupplyDistributed {
                        mint: old(cfg).mint,
                        total_amount: old(cfg).total_supply,
                        timestamp: now,
                    },
                ))
            },
            Err(e) => {
                &&& distribute_initial_supply_check(*old(cfg), caller) == Err::<(), MemecoinError>(
                    e,
                )
                &&& *final(cfg) == *old(cfg)
                &&& final(log)@ == old(log)@
            },
        },
{
    if caller != cfg.authority {
        return Err(MemecoinError::Unauthorized);
    }
    if cfg.circulating_supply != 0 {
        return Err(MemecoinError::AlreadyDistributed);
    }
    let mut ops: Vec<TokenOp> = Vec::new();
    ops.push(TokenOp::Mint {
        mint: cfg.mint,
        to: game_rewards_account,
        amount: cfg.game_rewards_pool,
        authority: TokenAuthority::User { key: caller },
    });
    ops.push(TokenOp::Mint {
        mint: cfg.mint,
        to: liquidity_account,
        amount: cfg.liquidity_pool,
        authority: TokenAuthority::User { key: caller },
    });
    ops.push(TokenOp::Mint {
        mint: cfg.mint,
        to: team_account,
        amount: cfg.team_allocation,
        authority: TokenAuthority::User { key: caller },
    });
    ops.push(TokenOp::Mint {
        mint: cfg.mint,
        to: community_account,
        amount: cfg.community_allocation,
        authority: TokenAuthority::User { key: caller },
    });
    cfg.circulating_supply = cfg.total_supply;
    log.push(MemecoinEvent::InitialSupplyDistributed(InitialSupplyDistributed {
        mint: cfg.mint,
        total_amount: cfg.total_supply,
        timestamp: now,
    }));
    Ok(ops)
}

/// Validation performed by `distribute_game_rewards`, in instruction order.
/// `pool_balance` is the token-ledger balance of the game-rewards account,
/// read by the host.
pub open spec fn distribute_game_rewards_check(
    cfg: MemecoinConfig,
    caller: Pubkey,
    amount: u64,
    game_id: Seq<char>,
    pool_balance: u64,
) -> Result<(), MemecoinError> {
    if amount == 0 {
        Err(MemecoinError::InvalidAmount)
    } else if game_id.len() > MAX_GAME_ID_LEN {
        Err(MemecoinError::GameIdTooLong)
    } else if caller != cfg.authority {
        Err(MemecoinError::Unauthorized)
    } else if pool_balance < amount {
        Err(MemecoinError::InsufficientRewards)
    } else {
        Ok(())
    }
}

/// Transfers `amount` from the game-rewards pool (program-signed) to the
/// player and records the disbursement under (player, game_id). The host
/// creates the record at an address derived from that key and rejects the
/// transaction before execution when it already exists, so the call
/// requires a fresh key: at most one disbursement per (player, game_id).
pub fn distribute_game_rewards(
    cfg: &MemecoinConfig,
    book: &mut RewardBook,
    caller: Pubkey,
    player: Pubkey,
    amount: u64,
    game_id: String,
    game_rewards_account: Pubkey,
    player_account: Pubkey,
    pool_balance: u64,
    rewards_pool_bump: u8,
    now: i64,
    log: &mut Vec<MemecoinEvent>,
) -> (r: Result<TokenOp, MemecoinError>)
    requires
        old(book).wf(),
        !old(book).contains_key(player, game_id@),
    ensures
        final(book).wf(),
        match r {
            Ok(op) => {
                &&& distribute_game_rewards_check(*cfg, caller, amount, game_id@, pool_balance)
                    is Ok
                &&& final(book).entries@ == old(book).entries@.push(RewardAccount {
                    player,
                    game_id,
                    amount,
                    timestamp: now,
                })
                &&& final(book).contains_key(player, game_id@)
                &&& op == (TokenOp::Transfer {
                    from: game_rewards_account,
                    to: player_account,
                    amount,
                    authority: TokenAuthority::Program {
                        signer: DerivedSigner {
                            seeds: SeedTuple::RewardsPool { mint: cfg.mint },
                            bump: rewards_pool_bump,
                        },
                    },
                })
                &&& final(log)@ == old(log)@.push(MemecoinEvent::GameRewardDistributed(
                    GameRewardDistributed { player, amount, game_id, timestamp: now },
                ))
            },
            Err(e) => {
                &&& distribute_game_rewards_check(*cfg, caller, amount, game_id@, pool_balance)
                    == Err::<(), MemecoinError>(e)
                &&& final(book).entries@ == old(book).entries@
                &&& final(log)@ == old(log)@
            },
        },
{
    if amount == 0 {
        return Err(MemecoinError::InvalidAmount);
    }
    if game_id.as_str().unicode_len() > MAX_GAME_ID_LEN {
        return Err(MemecoinError::GameIdTooLong);
    }
    if caller != cfg.authority {
        return Err(MemecoinError::Unauthorized);
    }
    if pool_balance < amount {
        return Err(MemecoinError::InsufficientRewards);
    }
    log.push(MemecoinEvent::GameRewardDistributed(GameRewardDistributed {
        player,
        amount,
        game_id: game_id.clone(),
        timestamp: now,
    }));
    let op = TokenOp::Transfer {
        from: game_rewards_account,
        to: player_account,
        amount,
        authority: TokenAuthority::Program {
            signer: DerivedSigner {
                seeds: SeedTuple::RewardsPool { mint: cfg.mint },
                bump: rewards_pool_bump,
            },
        },
    };
    book.entries.push(RewardAccount { player, game_id, amount, timestamp: now });
    proof {
        let entries = book.entries@;
        let n = entries.len() - 1;
        assert forall|i: int, j: int| 0 <= i < j < entries.len() implies !same_reward_key(
            #[trigger] entries[i],
            #[trigger] entries[j],
        ) by {
            if j == n {
                assert(!old(book).contains_key(entries[n].player, entries[n].game_id@));
            }
        }
        assert(entries[n].player == player && entries[n].game_id@ == game_id@);
    }
    Ok(op)
}

/// Validation performed by `setup_airdrop_account`, in instruction order.
pub open spec fn setup_airdrop_check(amount: u64, claimable_at: i64, now: i64) -> Result<
    (),
    MemecoinError,
> {
    if amount == 0 {
        Err(MemecoinError::InvalidAmount)
    } else if claimable_at <= now {
        Err(MemecoinError::InvalidClaimTime)
    } else {
        Ok(())
    }
}

/// One recipient's airdrop entitlement, keyed by recipient.
#[derive(Debug, PartialEq)]
pub struct AirdropAccount {
    pub recipient: Pubkey,
    pub mint: Pubkey,
    pub amount: u64,
    pub claimable_at: i64,
    pub claimed: bool,
    pub created_at: i64,
    pub claimed_at: Option<i64>,
}

impl AirdropAccount {
    /// Invariant: a claimed entitlement records when it was claimed, and
    /// never before it became claimable.
    pub open spec fn wf(self) -> bool {
        self.claimed ==> match self.claimed_at {
            Some(t) => t >= self.claimable_at,
            None => false,
        }
    }
}

/// Creates the caller's airdrop entitlement, claimable strictly in the
/// future. One per recipient: the host derives the record's address from
/// the recipient alone and rejects a second creation.
pub fn setup_airdrop_account(
    recipient: Pubkey,
    mint: Pubkey,
    amount: u64,
    claimable_at: i64,
    now: i64,
    log: &mut Vec<MemecoinEvent>,
) -> (r: Result<AirdropAccount, MemecoinError>)
    ensures
        match r {
            Ok(a) => {
                &&& setup_airdrop_check(amount, claimable_at, now) is Ok
                &&& a == (AirdropAccount {
                    recipient,
                    mint,
                    amount,
                    claimable_at,
                    claimed: false,
                    created_at: now,
                    claimed_at: None,
                })
                &&& a.wf()
                &&& final(log)@ == old(log)@.push(MemecoinEvent::AirdropAccountSetup(
                    AirdropAccountSetup { recipient, amount, claimable_at, timestamp: now },
                ))
            },
            Err(e) => {
                &&& setup_airdrop_check(amount, claimable_at, now) == Err::<(), MemecoinError>(e)
                &&& final(log)@ == old(log)@
            },
        },
{
    if amount == 0 {
        return Err(MemecoinError::InvalidAmount);
    }
    if claimable_at <= now {
        return Err(MemecoinError::InvalidClaimTime);
    }
    log.push(MemecoinEvent::AirdropAccountSetup(AirdropAccountSetup {
        recipient,
        amount,
        claimable_at,
        timestamp: now,
    }));
    Ok(AirdropAccount {
        recipient,
        mint,
        amount,
        claimable_at,
        claimed: false,
        created_at: now,
        claimed_at: None,
    })
}

/// Validation performed by `claim_airdrop`, in instruction order.
pub open spec fn claim_airdrop_check(a: AirdropAccount, caller: Pubkey, now: i64) -> Result<
    (),
    MemecoinError,
> {
    if caller != a.recipient {
        Err(MemecoinError::Unauthorized)
    } else if a.claimed {
        Err(MemecoinError::AlreadyClaimed)
    } else if now < a.claimable_at {
        Err(MemecoinError::AirdropNotAvailable)
    } else {
        Ok(())
    }
}

/// The entitlement after a successful claim at `now`.
pub open spec fn airdrop_after_claim(a: AirdropAccount, now: i64) -> AirdropAccount {
    AirdropAccount { claimed: true, claimed_at: Some(now), ..a }
}

/// Pays the entitlement out of the airdrop pool (program-signed) once the
/// claimable time has been reached, and marks it claimed at `now`.
/// Succeeds exactly at `now == claimable_at`.
pub fn claim_airdrop(
    a: &mut AirdropAccount,
    caller: Pubkey,
    airdrop_pool: Pubkey,
    recipient_account: Pubkey,
    airdrop_pool_bump: u8,
    now: i64,
    log: &mut Vec<MemecoinEvent>,
) -> (r: Result<TokenOp, MemecoinError>)
    ensures
        match r {
            Ok(op) => {
                &&& claim_airdrop_check(*old(a), caller, now) is Ok
                &&& *final(a) == airdrop_after_claim(*old(a), now)
                &&& final(a).wf()
                &&& op == (TokenOp::Transfer {
                    from: airdrop_pool,
                    to: recipient_account,
                    amount: old(a).amount,
                    authority: TokenAuthority::Program {
                        signer: DerivedSigner {
                            seeds: SeedTuple::AirdropPool { mint: old(a).mint },
                            bump: airdrop_pool_bump,
                        },
                    },
                })
                &&& final(log)@ == old(log)@.push(MemecoinEvent::AirdropClaimed(AirdropClaimed {
                    recipient: old(a).recipient,
                    amount: old(a).amount,
                    timestamp: now,
                }))
            },
            Err(e) => {
                &&& claim_airdrop_check(*old(a), caller, now) == Err::<(), MemecoinError>(e)
                &&& *final(a) == *old(a)
                &&& final(log)@ == old(log)@
            },
        },
{
    if caller != a.recipient {
        return Err(MemecoinError::Unauthorized);
    }
    if a.claimed {
        return Err(MemecoinError::AlreadyClaimed);
    }
    if now < a.claimable_at {
        return Err(MemecoinError::AirdropNotAvailable);
    }
    a.claimed = true;
    a.claimed_at = Some(now);
    log.push(MemecoinEvent::AirdropClaimed(AirdropClaimed {
        recipient: a.recipient,
        amount: a.amount,
        timestamp: now,
    }));
    Ok(TokenOp::Transfer {
        from: airdrop_pool,
        to: recipient_account,
        amount: a.amount,
        authority: TokenAuthority::Program {
            signer: DerivedSigner {
                seeds: SeedTuple::AirdropPool { mint: a.mint },
                bump: airdrop_pool_bump,
            },
        },
    })
}

/// What initialization allocates to the four pools together.
pub open spec fn pool_allocation_sum(total_supply: u64) -> int {
    total_supply * GAME_REWARDS_PERCENT / 100 + total_supply * LIQUIDITY_PERCENT / 100
        + total_supply * TEAM_PERCENT / 100 + total_supply * COMMUNITY_PERCENT / 100
}

/// Law: the pool allocations never exceed the total supply, and account for
/// it exactly when the supply is a multiple of ten; otherwise the remainder
/// of the floor divisions stays unallocated.
pub proof fn lemma_pool_allocation(total_supply: u64)
    ensures
        pool_allocation_sum(total_supply) <= total_supply,
        total_supply % 10 == 0 ==> pool_allocation_sum(total_supply) == total_supply,
{
    let t = total_supply as int;
    lemma_fundamental_div_mod(t * 40, 100);
    lemma_fundamental_div_mod(t * 30, 100);
    lemma_fundamental_div_mod(t * 20, 100);
    lemma_fundamental_div_mod(t * 10, 100);
    lemma_mod_division_less_than_divisor(t * 40, 100);
    lemma_mod_division_less_than_divisor(t * 30, 100);
    lemma_mod_division_less_than_divisor(t * 20, 100);
    lemma_mod_division_less_than_divisor(t * 10, 100);
    if total_supply % 10 == 0 {
        lemma_fundamental_div_mod(t, 10);
        let k = t / 10;
        lemma_div_multiples_vanish(4 * k, 100);
        lemma_div_multiples_vanish(3 * k, 100);
        lemma_div_multiples_vanish(2 * k, 100);
        lemma_div_multiples_vanish(k, 100);
        assert(t * 40 == 100 * (4 * k));
        assert(t * 30 == 100 * (3 * k));
        assert(t * 20 == 100 * (2 * k));
        assert(t * 10 == 100 * k);
    }
}

/// Law: a well-formed reward book holds at most one record per
/// (player, game_id), so at most one disbursement can have succeeded for
/// that pair.
pub proof fn lemma_at_most_one_reward(book: RewardBook, i: int, j: int)
    requires
        book.wf(),
        0 <= i < book.entries@.len(),
        0 <= j < book.entries@.len(),
        book.entries@[i].player == book.entries@[j].player,
        book.entries@[i].game_id@ == book.entries@[j].game_id@,
    ensures
        i == j,
{
    if i < j {
        assert(!same_reward_key(book.entries@[i], book.entries@[j]));
    } else if j < i {
        assert(!same_reward_key(book.entries@[j], book.entries@[i]));
    }
}

/// Law: once an entitlement is claimed, no later claim can succeed, by any
/// caller at any time.
pub proof fn lemma_airdrop_claim_at_most_once(
    a: AirdropAccount,
    now: i64,
    caller2: Pubkey,
    now2: i64,
)
    ensures
        claim_airdrop_check(airdrop_after_claim(a, now), caller2, now2) is Err,
{
}

/// Law: an unclaimed entitlement is claimable by its recipient at the
/// moment it becomes claimable, not only after it.
pub proof fn lemma_airdrop_claimable_at_boundary(a: AirdropAccount)
    requires
        !a.claimed,
    ensures
        claim_airdrop_check(a, a.recipient, a.claimable_at) is Ok,
        a.claimable_at > i64::MIN ==> claim_airdrop_check(
            a,
            a.recipient,
            (a.claimable_at - 1) as i64,
        ) == Err::<(), MemecoinError>(MemecoinError::AirdropNotAvailable),
{
}

/// Law: a successful claim records a claim time no earlier than the
/// claimable time, and keeps the entitlement well formed.
pub proof fn lemma_airdrop_claimed_at_bounds(a: AirdropAccount, caller: Pubkey, now: i64)
    requires
        claim_airdrop_check(a, caller, now) is Ok,
    ensures
        airdrop_after_claim(a, now).wf(),
        airdrop_after_claim(a, now).claimed_at == Some(now),
        now >= a.claimable_at,
{
}

} // verus!
