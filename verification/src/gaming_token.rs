//! Gaming token program: mint configuration, time-locked staking, and
//! linear 5%-APR reward accrual against a 365-day year.
//!
//! Every instruction takes the signed caller and the host clock as plain
//! values, mutates its record, appends its event to `log` exactly on
//! success, and returns the token operation the host must perform.

use vstd::prelude::*;
use vstd::string::StrSliceExecFns;
use crate::keys::Pubkey;
use crate::token::{DerivedSigner, SeedTuple, TokenAuthority, TokenOp};

verus! {

pub const MAX_NAME_LEN: usize = 32;
pub const MAX_SYMBOL_LEN: usize = 10;
pub const MAX_DECIMALS: u8 = 9;
pub const APR_NUMERATOR: u64 = 5;
pub const APR_DENOMINATOR: u64 = 100;
pub const SECONDS_PER_YEAR: u64 = 365 * 24 * 60 * 60;

#[derive(Clone, Copy, PartialEq, Eq, Structural, Debug)]
pub enum GamingTokenError {
    NameTooLong,
    SymbolTooLong,
    InvalidDecimals,
    InvalidAmount,
    InvalidLockPeriod,
    Unauthorized,
    StakeNotActive,
    TokensStillLocked,
    InsufficientFunds,
}

/// Configuration record of one gaming-token mint.
#[derive(Debug, PartialEq)]
pub struct MintConfig {
    pub authority: Pubkey,
    pub mint: Pubkey,
    pub token_name: String,
    pub token_symbol: String,
    pub decimals: u8,
    pub total_supply: u64,
    pub is_initialized: bool,
    pub created_at: i64,
}

/// One user's stake in a mint, keyed by (owner, mint).
#[derive(Clone, Copy, PartialEq, Eq, Structural, Debug)]
pub struct StakeAccount {
    pub owner: Pubkey,
    pub mint: Pubkey,
    pub amount: u64,
    pub lock_until: i64,
    pub created_at: i64,
    pub last_reward_claim: i64,
    pub is_active: bool,
}

impl StakeAccount {
    /// Invariant of a stake against the host clock: while active, the unlock
    /// time never precedes creation, and the last reward claim lies between
    /// creation and now.
    pub open spec fn wf(self, now: i64) -> bool {
        self.is_active ==> {
            &&& self.lock_until >= self.created_at
            &&& self.created_at <= self.last_reward_claim <= now
        }
    }
}

pub struct MintInitialized {
    pub mint: Pubkey,
    pub name: String,
    pub symbol: String,
    pub decimals: u8,
    pub authority: Pubkey,
    pub timestamp: i64,
}

pub struct TokensMinted {
    pub mint: Pubkey,
    pub to: Pubkey,
    pub amount: u64,
    pub new_supply: u64,
    pub timestamp: i64,
}

pub struct TokensStaked {
    pub owner: Pubkey,
    pub amount: u64,
    pub lock_until: i64,
    pub timestamp: i64,
}

pub struct TokensUnstaked {
    pub owner: Pubkey,
    pub principal: u64,
    pub reward: u64,
    pub total: u64,
    pub timestamp: i64,
}

pub struct RewardsClaimed {
    pub owner: Pubkey,
    pub amount: u64,
    pub timestamp: i64,
}

/// The append-only event log of the gaming token program.
pub enum GamingEvent {
    MintInitialized(MintInitialized),
    TokensMinted(TokensMinted),
    TokensStaked(TokensStaked),
    TokensUnstaked(TokensUnstaked),
    RewardsClaimed(RewardsClaimed),
}

/// Validation performed by `initialize_mint`, in instruction order.
pub open spec fn initialize_mint_check(
    name: Seq<char>,
    symbol: Seq<char>,
    decimals: u8,
) -> Result<(), GamingTokenError> {
    if name.len() > MAX_NAME_LEN {
        Err(GamingTokenError::NameTooLong)
    } else if symbol.len() > MAX_SYMBOL_LEN {
        Err(GamingTokenError::SymbolTooLong)
    } else if decimals > MAX_DECIMALS {
        Err(GamingTokenError::InvalidDecimals)
    } else {
        Ok(())
    }
}

/// Creates the configuration record of a new mint with zero supply, owned
/// by the caller.
pub fn initialize_mint(
    authority: Pubkey,
    mint: Pubkey,
    token_name: String,
    token_symbol: String,
    decimals: u8,
    now: i64,
    log: &mut Vec<GamingEvent>,
) -> (r: Result<MintConfig, GamingTokenError>)
    ensures
        match r {
            Ok(cfg) => {
                &&& initialize_mint_check(token_name@, token_symbol@, decimals) is Ok
                &&& cfg == (MintConfig {
                    authority,
                    mint,
                    token_name,
                    token_symbol,
                    decimals,
                    total_supply: 0,
                    is_initialized: true,
                    created_at: now,
                })
                &&& final(log)@ == old(log)@.push(GamingEvent::MintInitialized(MintInitialized {
                    mint,
                    name: token_name,
                    symbol: token_symbol,
                    decimals,
                    authority,
                    timestamp: now,
                }))
            },
            Err(e) => {
                &&& initialize_mint_check(token_name@, token_symbol@, decimals) == Err::<(), GamingTokenError>(e)
                &&& final(log)@ == old(log)@
            },
        },
{
    if token_name.as_str().unicode_len() > MAX_NAME_LEN {
        return Err(GamingTokenError::NameTooLong);
    }
    if token_symbol.as_str().unicode_len() > MAX_SYMBOL_LEN {
        return Err(GamingTokenError::SymbolTooLong);
    }
    if decimals > MAX_DECIMALS {
        return Err(GamingTokenError::InvalidDecimals);
    }
    log.push(GamingEvent::MintInitialized(MintInitialized {
        mint,
        name: token_name.clone(),
        symbol: token_symbol.clone(),
        decimals,
        authority,
        timestamp: now,
    }));
    Ok(MintConfig {
        authority,
        mint,
        token_name,
        token_symbol,
        decimals,
        total_supply: 0,
        is_initialized: true,
        created_at: now,
    })
}

/// Validation performed by `mint_tokens`, in instruction order.
pub open spec fn mint_tokens_check(
    cfg: MintConfig,
    caller: Pubkey,
    amount: u64,
) -> Result<(), GamingTokenError> {
    if amount == 0 {
        Err(GamingTokenError::InvalidAmount)
    } else if caller != cfg.authority {
        Err(GamingTokenError::Unauthorized)
    } else {
        Ok(())
    }
}

/// The configuration after a successful mint of `amount`.
pub open spec fn mint_next(cfg: MintConfig, amount: u64) -> MintConfig {
    MintConfig { total_supply: (cfg.total_supply + amount) as u64, ..cfg }
}

/// Mints `amount` new tokens to `token_account` under the caller's own
/// signature and adds them to the recorded total supply. Only the mint
/// authority may mint; overflow of the supply is a fatal abort and is
/// excluded here.
pub fn mint_tokens(
    cfg: &mut MintConfig,
    caller: Pubkey,
    token_account: Pubkey,
    amount: u64,
    now: i64,
    log: &mut Vec<GamingEvent>,
) -> (r: Result<TokenOp, GamingTokenError>)
    requires
        mint_tokens_check(*old(cfg), caller, amount) is Ok ==> old(cfg).total_supply + amount
            <= u64::MAX,
    ensures
        match r {
            Ok(op) => {
                &&& mint_tokens_check(*old(cfg), caller, amount) is Ok
                &&& *final(cfg) == mint_next(*old(cfg), amount)
                &&& final(cfg).total_supply == old(cfg).total_supply + amount
                &&& op == (TokenOp::Mint {
                    mint: old(cfg).mint,
                    to: token_account,
                    amount,
                    authority: TokenAuthority::User { key: caller },
                })
                &&& final(log)@ == old(log)@.push(GamingEvent::TokensMinted(TokensMinted {
                    mint: old(cfg).mint,
                    to: token_account,
                    amount,
                    new_supply: (old(cfg).total_supply + amount) as u64,
                    timestamp: now,
                }))
            },
            Err(e) => {
                &&& mint_tokens_check(*old(cfg), caller, amount) == Err::<(), GamingTokenError>(e)
                &&& *final(cfg) == *old(cfg)
                &&& final(log)@ == old(log)@
            },
        },
{
    if amount == 0 {
        return Err(GamingTokenError::InvalidAmount);
    }
    if caller != cfg.authority {
        return Err(GamingTokenError::Unauthorized);
    }
    cfg.total_supply = cfg.total_supply + amount;
    log.push(GamingEvent::TokensMinted(TokensMinted {
        mint: cfg.mint,
        to: token_account,
        amount,
        new_supply: cfg.total_supply,
        timestamp: now,
    }));
    Ok(TokenOp::Mint {
        mint: cfg.mint,
        to: token_account,
        amount,
        authority: TokenAuthority::User { key: caller },
    })
}

/// Validation performed by `stake_tokens`, in instruction order.
pub open spec fn stake_tokens_check(amount: u64, lock_period: i64) -> Result<
    (),
    GamingTokenError,
> {
    if amount == 0 {
        Err(GamingTokenError::InvalidAmount)
    } else if lock_period <= 0 {
        Err(GamingTokenError::InvalidLockPeriod)
    } else {
        Ok(())
    }
}

/// Moves `amount` tokens from the caller's wallet into the mint's stake
/// vault (user-signed) and opens a stake locked until `now + lock_period`.
pub fn stake_tokens(
    owner: Pubkey,
    mint: Pubkey,
    user_token_account: Pubkey,
    stake_vault: Pubkey,
    amount: u64,
    lock_period: i64,
    now: i64,
    log: &mut Vec<GamingEvent>,
) -> (r: Result<(StakeAccount, TokenOp), GamingTokenError>)
    requires
        stake_tokens_check(amount, lock_period) is Ok ==> now + lock_period <= i64::MAX,
    ensures
        match r {
            Ok((st, op)) => {
                &&& stake_tokens_check(amount, lock_period) is Ok
                &&& st == (StakeAccount {
                    owner,
                    mint,
                    amount,
                    lock_until: (now + lock_period) as i64,
                    created_at: now,
                    last_reward_claim: now,
                    is_active: true,
                })
                &&& st.wf(now)
                &&& op == (TokenOp::Transfer {
                    from: user_token_account,
                    to: stake_vault,
                    amount,
                    authority: TokenAuthority::User { key: owner },
                })
                &&& final(log)@ == old(log)@.push(GamingEvent::TokensStaked(TokensStaked {
                    owner,
                    amount,
                    lock_until: (now + lock_period) as i64,
                    timestamp: now,
                }))
            },
            Err(e) => {
                &&& stake_tokens_check(amount, lock_period) == Err::<(), GamingTokenError>(e)
                &&& final(log)@ == old(log)@
            },
        },
{
    if amount == 0 {
        return Err(GamingTokenError::InvalidAmount);
    }
    if lock_period <= 0 {
        return Err(GamingTokenError::InvalidLockPeriod);
    }
    let lock_until = now + lock_period;
    let st = StakeAccount {
        owner,
        mint,
        amount,
        lock_until,
        created_at: now,
        last_reward_claim: now,
        is_active: true,
    };
    log.push(GamingEvent::TokensStaked(TokensStaked {
        owner,
        amount,
        lock_until,
        timestamp: now,
    }));
    Ok((st, TokenOp::Transfer {
        from: user_token_account,
        to: stake_vault,
        amount,
        authority: TokenAuthority::User { key: owner },
    }))
}

/// The linear reward: `amount * 5 / 100` per 365-day year, prorated by
/// elapsed seconds with truncating division.
pub open spec fn stake_reward(amount: u64, elapsed: int) -> int {
    amount * APR_NUMERATOR * elapsed / ((APR_DENOMINATOR * SECONDS_PER_YEAR) as int)
}

/// Computes the linear reward for `amount` staked over `elapsed` seconds.
pub fn linear_reward(amount: u64, elapsed: u64) -> (r: u64)
    requires
        amount * APR_NUMERATOR * elapsed <= u64::MAX,
    ensures
        r == stake_reward(amount, elapsed as int),
{
    if elapsed == 0 {
        return 0;
    }
    assert(amount * APR_NUMERATOR <= amount * APR_NUMERATOR * elapsed) by (nonlinear_arith)
        requires
            elapsed >= 1,
    ;
    amount * APR_NUMERATOR * elapsed / (APR_DENOMINATOR * SECONDS_PER_YEAR)
}

/// Validation performed by `claim_rewards` and `unstake_tokens` up to the
/// temporal guard, in instruction order.
pub open spec fn claim_rewards_check(st: StakeAccount, caller: Pubkey) -> Result<
    (),
    GamingTokenError,
> {
    if !st.is_active {
        Err(GamingTokenError::StakeNotActive)
    } else if caller != st.owner {
        Err(GamingTokenError::Unauthorized)
    } else {
        Ok(())
    }
}

/// Pays out the reward accrued since the last claim from the reward vault
/// (program-signed) and restarts accrual at `now`. A zero reward is a
/// successful no-op: no transfer, no event, no state change.
pub fn claim_rewards(
    st: &mut StakeAccount,
    caller: Pubkey,
    reward_vault: Pubkey,
    user_token_account: Pubkey,
    reward_vault_bump: u8,
    now: i64,
    log: &mut Vec<GamingEvent>,
) -> (r: Result<Option<TokenOp>, GamingTokenError>)
    requires
        old(st).wf(now),
        claim_rewards_check(*old(st), caller) is Ok ==> {
            &&& now - old(st).last_reward_claim <= i64::MAX
            &&& old(st).amount * APR_NUMERATOR * (now - old(st).last_reward_claim) <= u64::MAX
        },
    ensures
        match r {
            Ok(opt) => {
                &&& claim_rewards_check(*old(st), caller) is Ok
                &&& ({
                    let reward = stake_reward(old(st).amount, now - old(st).last_reward_claim);
                    if reward > 0 {
                        &&& opt == Some(TokenOp::Transfer {
                            from: reward_vault,
                            to: user_token_account,
                            amount: reward as u64,
                            authority: TokenAuthority::Program {
                                signer: DerivedSigner {
                                    seeds: SeedTuple::RewardVault { mint: old(st).mint },
                                    bump: reward_vault_bump,
                                },
                            },
                        })
                        &&& *final(st) == (StakeAccount { last_reward_claim: now, ..*old(st) })
                        &&& final(log)@ == old(log)@.push(GamingEvent::RewardsClaimed(
                            RewardsClaimed {
                                owner: old(st).owner,
                                amount: reward as u64,
                                timestamp: now,
                            },
                        ))
                    } else {
                        &&& opt is None
                        &&& *final(st) == *old(st)
                        &&& final(log)@ == old(log)@
                    }
                })
                &&& final(st).wf(now)
            },
            Err(e) => {
                &&& claim_rewards_check(*old(st), caller) == Err::<(), GamingTokenError>(e)
                &&& *final(st) == *old(st)
                &&& final(log)@ == old(log)@
            },
        },
{
    if !st.is_active {
        return Err(GamingTokenError::StakeNotActive);
    }
    if caller != st.owner {
        return Err(GamingTokenError::Unauthorized);
    }
    let elapsed = (now - st.last_reward_claim) as u64;
    let reward = linear_reward(st.amount, elapsed);
    if reward > 0 {
        st.last_reward_claim = now;
        log.push(GamingEvent::RewardsClaimed(RewardsClaimed {
            owner: st.owner,
            amount: reward,
            timestamp: now,
        }));
        Ok(Some(TokenOp::Transfer {
            from: reward_vault,
            to: user_token_account,
            amount: reward,
            authority: TokenAuthority::Program {
                signer: DerivedSigner {
                    seeds: SeedTuple::RewardVault { mint: st.mint },
                    bump: reward_vault_bump,
                },
            },
        }))
    } else {
        Ok(None)
    }
}

/// Validation performed by `unstake_tokens`, in instruction order.
pub open spec fn unstake_tokens_check(st: StakeAccount, caller: Pubkey, now: i64) -> Result<
    (),
    GamingTokenError,
> {
    if !st.is_active {
        Err(GamingTokenError::StakeNotActive)
    } else if caller != st.owner {
        Err(GamingTokenError::Unauthorized)
    } else if now < st.lock_until {
        Err(GamingTokenError::TokensStillLocked)
    } else {
        Ok(())
    }
}

/// Closes an unlocked stake: pays the principal plus a reward computed from
/// stake inception (not from the last claim, so rewards already paid by
/// `claim_rewards` are paid again) out of the stake vault, program-signed,
/// and deactivates the stake. Succeeds exactly at `now == lock_until`.
pub fn unstake_tokens(
    st: &mut StakeAccount,
    caller: Pubkey,
    stake_vault: Pubkey,
    user_token_account: Pubkey,
    vault_bump: u8,
    now: i64,
    log: &mut Vec<GamingEvent>,
) -> (r: Result<TokenOp, GamingTokenError>)
    requires
        old(st).wf(now),
        unstake_tokens_check(*old(st), caller, now) is Ok ==> {
            &&& now - old(st).created_at <= i64::MAX
            &&& old(st).amount * APR_NUMERATOR * (now - old(st).created_at) <= u64::MAX
            &&& old(st).amount + stake_reward(old(st).amount, now - old(st).created_at)
                <= u64::MAX
        },
    ensures
        match r {
            Ok(op) => {
                &&& unstake_tokens_check(*old(st), caller, now) is Ok
                &&& ({
                    let reward = stake_reward(old(st).amount, now - old(st).created_at);
                    &&& op == (TokenOp::Transfer {
                        from: stake_vault,
                        to: user_token_account,
                        amount: (old(st).amount + reward) as u64,
                        authority: TokenAuthority::Program {
                            signer: DerivedSigner {
                                seeds: SeedTuple::StakeVault { mint: old(st).mint },
                                bump: vault_bump,
                            },
                        },
                    })
                    &&& final(log)@ == old(log)@.push(GamingEvent::TokensUnstaked(TokensUnstaked {
                        owner: old(st).owner,
                        principal: old(st).amount,
                        reward: reward as u64,
                        total: (old(st).amount + reward) as u64,
                        timestamp: now,
                    }))
                })
                &&& *final(st) == (StakeAccount { is_active: false, ..*old(st) })
            },
            Err(e) => {
                &&& unstake_tokens_check(*old(st), caller, now) == Err::<(), GamingTokenError>(e)
                &&& *final(st) == *old(st)
                &&& final(log)@ == old(log)@
            },
        },
{
    if !st.is_active {
        return Err(GamingTokenError::StakeNotActive);
    }
    if caller != st.owner {
        return Err(GamingTokenError::Unauthorized);
    }
    if now < st.lock_until {
        return Err(GamingTokenError::TokensStillLocked);
    }
    let elapsed = (now - st.created_at) as u64;
    let reward = linear_reward(st.amount, elapsed);
    let total = st.amount + reward;
    st.is_active = false;
    log.push(GamingEvent::TokensUnstaked(TokensUnstaked {
        owner: st.owner,
        principal: st.amount,
        reward,
        total,
        timestamp: now,
    }));
    Ok(TokenOp::Transfer {
        from: stake_vault,
        to: user_token_account,
        amount: total,
        authority: TokenAuthority::Program {
            signer: DerivedSigner {
                seeds: SeedTuple::StakeVault { mint: st.mint },
                bump: vault_bump,
            },
        },
    })
}

/// Law: no elapsed time accrues no reward, so a claim made at the moment of
/// the last claim is a successful no-op: no transfer, no event, no error.
pub proof fn lemma_no_time_no_reward(amount: u64)
    ensures
        stake_reward(amount, 0) == 0,
{
}

/// Law: an active stake can be unstaked by its owner at the moment the lock
/// expires, not only after it.
pub proof fn lemma_unstake_at_unlock(st: StakeAccount, caller: Pubkey)
    requires
        st.is_active,
        caller == st.owner,
    ensures
        unstake_tokens_check(st, caller, st.lock_until) is Ok,
{
}

/// Law: the stake invariant is stable under the host clock, which only
/// moves forward.
pub proof fn lemma_stake_wf_clock_advance(st: StakeAccount, n1: i64, n2: i64)
    requires
        st.wf(n1),
        n1 <= n2,
    ensures
        st.wf(n2),
{
}

/// The sum of a sequence of minted amounts.
pub open spec fn sum_amounts(amounts: Seq<u64>) -> int
    decreases amounts.len(),
{
    if amounts.len() == 0 {
        0
    } else {
        sum_amounts(amounts.drop_last()) + amounts.last()
    }
}

/// The total supply after a sequence of successful mints of the given
/// amounts, starting from `initial`.
pub open spec fn supply_after_mints(initial: int, amounts: Seq<u64>) -> int
    decreases amounts.len(),
{
    if amounts.len() == 0 {
        initial
    } else {
        supply_after_mints(initial, amounts.drop_last()) + amounts.last()
    }
}

/// Law: the total supply after any sequence of successful mints equals the
/// initial supply plus the sum of the minted amounts; in particular the
/// supply never falls below what was minted.
pub proof fn lemma_supply_after_mints(initial: int, amounts: Seq<u64>)
    ensures
        supply_after_mints(initial, amounts) == initial + sum_amounts(amounts),
        supply_after_mints(initial, amounts) >= initial,
    decreases amounts.len(),
{
    if amounts.len() > 0 {
        lemma_supply_after_mints(initial, amounts.drop_last());
    }
}

/// Law: one successful mint moves the supply up by exactly the minted
/// amount; the supply is monotone.
pub proof fn lemma_mint_supply_monotonic(cfg: MintConfig, amount: u64)
    requires
        cfg.total_supply + amount <= u64::MAX,
    ensures
        mint_next(cfg, amount).total_supply == cfg.total_supply + amount,
        mint_next(cfg, amount).total_supply >= cfg.total_supply,
{
}

} // verus!
