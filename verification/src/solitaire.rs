//! Solitaire program: per-game escrowed stakes, a move counter, completion
//! settlement (double the stake on a win, half otherwise), and
//! inactivity-gated abandonment with a 10% penalty.
//!
//! Every instruction takes the signed caller and the host clock as plain
//! values, mutates its record, appends its events to `log` exactly on
//! success, and returns the token operation the host must perform.

use vstd::prelude::*;
use vstd::string::StrSliceExecFns;
use crate::keys::Pubkey;
use crate::token::{DerivedSigner, SeedTuple, TokenAuthority, TokenOp};

verus! {

pub const MAX_GAME_ID_LEN: usize = 32;
pub const ABANDON_DELAY_SECONDS: i64 = 86400;
pub const MOVE_SCORE: u64 = 10;
pub const WIN_MULTIPLIER: u64 = 2;
pub const ABANDON_PENALTY_DIVISOR: u64 = 10;

#[derive(Clone, Copy, PartialEq, Eq, Structural, Debug)]
pub enum SolitaireError {
    InvalidStakeAmount,
    GameIdTooLong,
    GameNotActive,
    Unauthorized,
    InvalidMove,
    WithdrawalTooEarly,
    InsufficientFunds,
    GameStateError,
}

#[derive(Clone, Copy, PartialEq, Eq, Structural, Debug)]
pub enum GameStatus {
    Active,
    Completed,
    Abandoned,
}

#[derive(Clone, Copy, PartialEq, Eq, Structural, Debug)]
pub enum PileType {
    Tableau,
    Foundation,
    Stock,
    Waste,
}

#[derive(Clone, Copy, PartialEq, Eq, Structural, Debug)]
pub struct CardData {
    /// 0 = hearts, 1 = diamonds, 2 = clubs, 3 = spades.
    pub suit: u8,
    /// 1 through 13 (ace through king).
    pub rank: u8,
    pub face_up: bool,
}

#[derive(Debug, PartialEq)]
pub struct PileData {
    pub id: String,
    pub pile_type: PileType,
    pub cards: Vec<CardData>,
}

/// Embedded board state, reserved for a full move-validation engine; the
/// settlement engine only tracks the counters.
#[derive(Debug, PartialEq)]
pub struct GameState {
    pub player: Pubkey,
    pub piles: Vec<PileData>,
    pub moves: u32,
    pub score: u64,
    pub is_won: bool,
    pub is_complete: bool,
    pub start_time: i64,
    pub end_time: Option<i64>,
}

/// A freshly dealt board for `player` at `start_time`: no piles, no moves,
/// nothing won.
pub open spec fn game_state_is_new(s: GameState, player: Pubkey, start_time: i64) -> bool {
    &&& s.player == player
    &&& s.piles@ =~= Seq::<PileData>::empty()
    &&& s.moves == 0
    &&& s.score == 0
    &&& !s.is_won
    &&& !s.is_complete
    &&& s.start_time == start_time
    &&& s.end_time is None
}

/// The board after one move: the counters advance, everything else stays.
pub open spec fn state_after_move(s: GameState) -> GameState {
    GameState { moves: (s.moves + 1) as u32, score: (s.score + MOVE_SCORE) as u64, ..s }
}

impl GameState {
    pub fn new(player: Pubkey, start_time: i64) -> (r: GameState)
        ensures
            game_state_is_new(r, player, start_time),
    {
        GameState {
            player,
            piles: Vec::new(),
            moves: 0,
            score: 0,
            is_won: false,
            is_complete: false,
            start_time,
            end_time: None,
        }
    }

    /// Applies one move to the board. The full card-move rule set is
    /// reserved; today every move is accepted and advances the counters.
    pub fn make_move(&mut self, from_pile: &str, to_pile: &str, card_index: u8) -> (r: Result<
        (),
        SolitaireError,
    >)
        requires
            old(self).moves < u32::MAX,
            old(self).score + MOVE_SCORE <= u64::MAX,
        ensures
            r is Ok,
            *final(self) == state_after_move(*old(self)),
    {
        self.moves = self.moves + 1;
        self.score = self.score + MOVE_SCORE;
        Ok(())
    }

    /// Whether the board is in a winning position: all cards on the
    /// foundations, as recorded by the win flag.
    pub fn is_won(&self) -> (r: bool)
        ensures
            r == self.is_won,
    {
        self.is_won
    }
}

/// Record of one game, keyed by (authority, game_id).
#[derive(Debug, PartialEq)]
pub struct GameAccount {
    pub authority: Pubkey,
    pub game_id: String,
    pub stake_amount: u64,
    pub reward_mint: Pubkey,
    pub status: GameStatus,
    pub moves: u32,
    pub score: u64,
    pub is_won: bool,
    pub created_at: i64,
    pub updated_at: i64,
    pub game_state: GameState,
    /// Derivation bump of the game's escrow signer, persisted at creation.
    pub bump: u8,
}

pub struct GameStarted {
    pub game_id: String,
    pub player: Pubkey,
    pub stake_amount: u64,
    pub timestamp: i64,
}

pub struct MoveMade {
    pub game_id: String,
    pub player: Pubkey,
    pub from_pile: String,
    pub to_pile: String,
    pub card_index: u8,
    pub moves: u32,
    pub timestamp: i64,
}

pub struct GameCompleted {
    pub game_id: String,
    pub player: Pubkey,
    pub won: bool,
    pub score: u64,
    pub moves: u32,
    pub timestamp: i64,
}

pub struct StakeWithdrawn {
    pub game_id: String,
    pub player: Pubkey,
    pub amount: u64,
    pub penalty: u64,
    pub timestamp: i64,
}

/// The append-only event log of the solitaire program.
pub enum SolitaireEvent {
    GameStarted(GameStarted),
    MoveMade(MoveMade),
    GameCompleted(GameCompleted),
    StakeWithdrawn(StakeWithdrawn),
}

/// Validation performed by `initialize_game`, in instruction order.
pub open spec fn initialize_game_check(stake_amount: u64, game_id: Seq<char>) -> Result<
    (),
    SolitaireError,
> {
    if stake_amount == 0 {
        Err(SolitaireError::InvalidStakeAmount)
    } else if game_id.len() > MAX_GAME_ID_LEN {
        Err(SolitaireError::GameIdTooLong)
    } else {
        Ok(())
    }
}

/// Opens a game: creates its record with the escrow signer's bump persisted,
/// deals a fresh board, and moves the stake from the caller's wallet into
/// the game's escrow, user-signed.
pub fn initialize_game(
    authority: Pubkey,
    game_id: String,
    stake_amount: u64,
    reward_mint: Pubkey,
    bump: u8,
    user_token_account: Pubkey,
    escrow_token_account: Pubkey,
    now: i64,
    log: &mut Vec<SolitaireEvent>,
) -> (r: Result<(GameAccount, TokenOp), SolitaireError>)
    ensures
        match r {
            Ok((g, op)) => {
                &&& initialize_game_check(stake_amount, game_id@) is Ok
                &&& g.authority == authority
                &&& g.game_id == game_id
                &&& g.stake_amount == stake_amount
                &&& g.reward_mint == reward_mint
                &&& g.status == GameStatus::Active
                &&& g.moves == 0
                &&& g.score == 0
                &&& !g.is_won
                &&& g.created_at == now
                &&& g.updated_at == now
                &&& game_state_is_new(g.game_state, authority, now)
                &&& g.bump == bump
                &&& op == (TokenOp::Transfer {
                    from: user_token_account,
                    to: escrow_token_account,
                    amount: stake_amount,
                    authority: TokenAuthority::User { key: authority },
                })
                &&& final(log)@ == old(log)@.push(SolitaireEvent::GameStarted(GameStarted {
                    game_id,
                    player: authority,
                    stake_amount,
                    timestamp: now,
                }))
            },
            Err(e) => {
                &&& initialize_game_check(stake_amount, game_id@) == Err::<(), SolitaireError>(e)
                &&& final(log)@ == old(log)@
            },
        },
{
    if stake_amount == 0 {
        return Err(SolitaireError::InvalidStakeAmount);
    }
    if game_id.as_str().unicode_len() > MAX_GAME_ID_LEN {
        return Err(SolitaireError::GameIdTooLong);
    }
    let game_state = GameState::new(authority, now);
    log.push(SolitaireEvent::GameStarted(GameStarted {
        game_id: game_id.clone(),
        player: authority,
        stake_amount,
        timestamp: now,
    }));
    let g = GameAccount {
        authority,
        game_id,
        stake_amount,
        reward_mint,
        status: GameStatus::Active,
        moves: 0,
        score: 0,
        is_won: false,
        created_at: now,
        updated_at: now,
        game_state,
        bump,
    };
    Ok((g, TokenOp::Transfer {
        from: user_token_account,
        to: escrow_token_account,
        amount: stake_amount,
        authority: TokenAuthority::User { key: authority },
    }))
}

/// Authorization shared by the instructions that mutate an open game, in
/// instruction order: the game must still be active and the caller must be
/// its authority.
pub open spec fn active_game_check(g: GameAccount, caller: Pubkey) -> Result<
    (),
    SolitaireError,
> {
    if g.status != GameStatus::Active {
        Err(SolitaireError::GameNotActive)
    } else if caller != g.authority {
        Err(SolitaireError::Unauthorized)
    } else {
        Ok(())
    }
}

/// The record after one successful move at `now`: the counters advance, the
/// clock of last activity moves, and a board already in a winning position
/// completes the game.
pub open spec fn game_after_move(g: GameAccount, now: i64) -> GameAccount {
    GameAccount {
        moves: (g.moves + 1) as u32,
        score: (g.score + MOVE_SCORE) as u64,
        updated_at: now,
        game_state: state_after_move(g.game_state),
        is_won: g.game_state.is_won || g.is_won,
        status: if g.game_state.is_won {
            GameStatus::Completed
        } else {
            g.status
        },
        ..g
    }
}

/// Plays one move: advances the move counter and the score by ten, stamps
/// the activity clock, and, if the board is in a winning position, settles
/// the game as completed, emitting `GameCompleted` in addition to
/// `MoveMade`.
pub fn make_move(
    g: &mut GameAccount,
    caller: Pubkey,
    from_pile: String,
    to_pile: String,
    card_index: u8,
    now: i64,
    log: &mut Vec<SolitaireEvent>,
) -> (r: Result<(), SolitaireError>)
    requires
        active_game_check(*old(g), caller) is Ok ==> {
            &&& old(g).moves < u32::MAX
            &&& old(g).score + MOVE_SCORE <= u64::MAX
            &&& old(g).game_state.moves < u32::MAX
            &&& old(g).game_state.score + MOVE_SCORE <= u64::MAX
        },
    ensures
        match r {
            Ok(()) => {
                &&& active_game_check(*old(g), caller) is Ok
                &&& *final(g) == game_after_move(*old(g), now)
                &&& ({
                    let move_event = SolitaireEvent::MoveMade(MoveMade {
                        game_id: old(g).game_id,
                        player: old(g).authority,
                        from_pile,
                        to_pile,
                        card_index,
                        moves: (old(g).moves + 1) as u32,
                        timestamp: now,
                    });
                    if old(g).game_state.is_won {
                        final(log)@ == old(log)@.push(SolitaireEvent::GameCompleted(GameCompleted {
                            game_id: old(g).game_id,
                            player: old(g).authority,
                            won: true,
                            score: (old(g).score + MOVE_SCORE) as u64,
                            moves: (old(g).moves + 1) as u32,
                            timestamp: now,
                        })).push(move_event)
                    } else {
                        final(log)@ == old(log)@.push(move_event)
                    }
                })
            },
            Err(e) => {
                &&& active_game_check(*old(g), caller) == Err::<(), SolitaireError>(e)
                &&& *final(g) == *old(g)
                &&& final(log)@ == old(log)@
            },
        },
{
    if !matches!(g.status, GameStatus::Active) {
        return Err(SolitaireError::GameNotActive);
    }
    if caller != g.authority {
        return Err(SolitaireError::Unauthorized);
    }
    let move_result = g.game_state.make_move(from_pile.as_str(), to_pile.as_str(), card_index);
    if move_result.is_err() {
        return Err(SolitaireError::InvalidMove);
    }
    g.moves = g.moves + 1;
    g.score = g.score + MOVE_SCORE;
    g.updated_at = now;
    if g.game_state.is_won() {
        g.is_won = true;
        g.status = GameStatus::Completed;
        log.push(SolitaireEvent::GameCompleted(GameCompleted {
            game_id: g.game_id.clone(),
            player: g.authority,
            won: true,
            score: g.score,
            moves: g.moves,
            timestamp: now,
        }));
    }
    log.push(SolitaireEvent::MoveMade(MoveMade {
        game_id: g.game_id.clone(),
        player: g.authority,
        from_pile,
        to_pile,
        card_index,
        moves: g.moves,
        timestamp: now,
    }));
    Ok(())
}

/// What settlement pays out of the escrow: double the stake on a win, half
/// the stake otherwise.
pub open spec fn settlement_amount(g: GameAccount) -> int {
    if g.game_state.is_won {
        WIN_MULTIPLIER * g.stake_amount
    } else {
        g.stake_amount as int / 2
    }
}

/// Settles an active game: pays the settlement out of the escrow,
/// program-signed with the persisted bump, and closes the record as
/// completed with the reported final score.
pub fn complete_game(
    g: &mut GameAccount,
    caller: Pubkey,
    final_score: u64,
    escrow_token_account: Pubkey,
    user_token_account: Pubkey,
    now: i64,
    log: &mut Vec<SolitaireEvent>,
) -> (r: Result<TokenOp, SolitaireError>)
    requires
        active_game_check(*old(g), caller) is Ok && old(g).game_state.is_won ==> WIN_MULTIPLIER
            * old(g).stake_amount <= u64::MAX,
    ensures
        match r {
            Ok(op) => {
                &&& active_game_check(*old(g), caller) is Ok
                &&& *final(g) == (GameAccount {
                    status: GameStatus::Completed,
                    score: final_score,
                    is_won: old(g).game_state.is_won,
                    updated_at: now,
                    ..*old(g)
                })
                &&& op == (TokenOp::Transfer {
                    from: escrow_token_account,
                    to: user_token_account,
                    amount: settlement_amount(*old(g)) as u64,
                    authority: TokenAuthority::Program {
                        signer: DerivedSigner {
                            seeds: SeedTuple::Escrow { game_id: old(g).game_id },
                            bump: old(g).bump,
                        },
                    },
                })
                &&& final(log)@ == old(log)@.push(SolitaireEvent::GameCompleted(GameCompleted {
                    game_id: old(g).game_id,
                    player: old(g).authority,
                    won: old(g).game_state.is_won,
                    score: final_score,
                    moves: old(g).moves,
                    timestamp: now,
                }))
            },
            Err(e) => {
                &&& active_game_check(*old(g), caller) == Err::<(), SolitaireError>(e)
                &&& *final(g) == *old(g)
                &&& final(log)@ == old(log)@
            },
        },
{
    if !matches!(g.status, GameStatus::Active) {
        return Err(SolitaireError::GameNotActive);
    }
    if caller != g.authority {
        return Err(SolitaireError::Unauthorized);
    }
    let won = g.game_state.is_won();
    g.status = GameStatus::Completed;
    g.score = final_score;
    g.is_won = won;
    g.updated_at = now;
    let reward_amount = if won {
        WIN_MULTIPLIER * g.stake_amount
    } else {
        g.stake_amount / 2
    };
    log.push(SolitaireEvent::GameCompleted(GameCompleted {
        game_id: g.game_id.clone(),
        player: g.authority,
        won,
        score: final_score,
        moves: g.moves,
        timestamp: now,
    }));
    Ok(TokenOp::Transfer {
        from: escrow_token_account,
        to: user_token_account,
        amount: reward_amount,
        authority: TokenAuthority::Program {
            signer: DerivedSigner {
                seeds: SeedTuple::Escrow { game_id: g.game_id.clone() },
                bump: g.bump,
            },
        },
    })
}

/// Validation performed by `withdraw_stake`, in instruction order: on top
/// of the shared authorization, a full day must have passed since the last
/// activity.
pub open spec fn withdraw_stake_check(g: GameAccount, caller: Pubkey, now: i64) -> Result<
    (),
    SolitaireError,
> {
    if g.status != GameStatus::Active {
        Err(SolitaireError::GameNotActive)
    } else if caller != g.authority {
        Err(SolitaireError::Unauthorized)
    } else if now - g.updated_at < ABANDON_DELAY_SECONDS {
        Err(SolitaireError::WithdrawalTooEarly)
    } else {
        Ok(())
    }
}

/// The stake refunded on abandonment: the stake minus the 10% penalty the
/// escrow retains.
pub open spec fn abandon_refund(stake_amount: u64) -> int {
    stake_amount - stake_amount as int / ABANDON_PENALTY_DIVISOR as int
}

/// Abandons a game untouched for a full day: refunds the stake minus the
/// 10% penalty out of the escrow, program-signed with the persisted bump,
/// and closes the record as abandoned. Succeeds exactly once a day has
/// passed since the last activity.
pub fn withdraw_stake(
    g: &mut GameAccount,
    caller: Pubkey,
    escrow_token_account: Pubkey,
    user_token_account: Pubkey,
    now: i64,
    log: &mut Vec<SolitaireEvent>,
) -> (r: Result<TokenOp, SolitaireError>)
    requires
        old(g).status == GameStatus::Active && caller == old(g).authority ==> i64::MIN <= now
            - old(g).updated_at <= i64::MAX,
    ensures
        match r {
            Ok(op) => {
                &&& withdraw_stake_check(*old(g), caller, now) is Ok
                &&& *final(g) == (GameAccount {
                    status: GameStatus::Abandoned,
                    updated_at: now,
                    ..*old(g)
                })
                &&& op == (TokenOp::Transfer {
                    from: escrow_token_account,
                    to: user_token_account,
                    amount: abandon_refund(old(g).stake_amount) as u64,
                    authority: TokenAuthority::Program {
                        signer: DerivedSigner {
                            seeds: SeedTuple::Escrow { game_id: old(g).game_id },
                            bump: old(g).bump,
                        },
                    },
                })
                &&& final(log)@ == old(log)@.push(SolitaireEvent::StakeWithdrawn(StakeWithdrawn {
                    game_id: old(g).game_id,
                    player: old(g).authority,
                    amount: abandon_refund(old(g).stake_amount) as u64,
                    penalty: (old(g).stake_amount / ABANDON_PENALTY_DIVISOR) as u64,
                    timestamp: now,
                }))
            },
            Err(e) => {
                &&& withdraw_stake_check(*old(g), caller, now) == Err::<(), SolitaireError>(e)
                &&& *final(g) == *old(g)
                &&& final(log)@ == old(log)@
            },
        },
{
    if !matches!(g.status, GameStatus::Active) {
        return Err(SolitaireError::GameNotActive);
    }
    if caller != g.authority {
        return Err(SolitaireError::Unauthorized);
    }
    let time_since_update = now - g.updated_at;
    if time_since_update < ABANDON_DELAY_SECONDS {
        return Err(SolitaireError::WithdrawalTooEarly);
    }
    g.status = GameStatus::Abandoned;
    g.updated_at = now;
    let penalty = g.stake_amount / ABANDON_PENALTY_DIVISOR;
    let refund_amount = g.stake_amount - penalty;
    log.push(SolitaireEvent::StakeWithdrawn(StakeWithdrawn {
        game_id: g.game_id.clone(),
        player: g.authority,
        amount: refund_amount,
        penalty,
        timestamp: now,
    }));
    Ok(TokenOp::Transfer {
        from: escrow_token_account,
        to: user_token_account,
        amount: refund_amount,
        authority: TokenAuthority::Program {
            signer: DerivedSigner {
                seeds: SeedTuple::Escrow { game_id: g.game_id.clone() },
                bump: g.bump,
            },
        },
    })
}

/// Law: a game that is no longer active is terminal. Every instruction on
/// it fails with `GameNotActive` — and each instruction's contract says a
/// failed call leaves the record and the log untouched.
pub proof fn lemma_terminal_status(g: GameAccount, caller: Pubkey, now: i64)
    requires
        g.status != GameStatus::Active,
    ensures
        active_game_check(g, caller) == Err::<(), SolitaireError>(SolitaireError::GameNotActive),
        withdraw_stake_check(g, caller, now) == Err::<(), SolitaireError>(
            SolitaireError::GameNotActive,
        ),
{
}

/// Law: abandonment opens exactly when a full day has passed since the last
/// activity: one second less is still too early.
pub proof fn lemma_withdraw_at_day_boundary(g: GameAccount, caller: Pubkey)
    requires
        g.status == GameStatus::Active,
        caller == g.authority,
        g.updated_at + ABANDON_DELAY_SECONDS <= i64::MAX,
    ensures
        withdraw_stake_check(g, caller, (g.updated_at + ABANDON_DELAY_SECONDS) as i64) is Ok,
        withdraw_stake_check(g, caller, (g.updated_at + ABANDON_DELAY_SECONDS - 1) as i64)
            == Err::<(), SolitaireError>(SolitaireError::WithdrawalTooEarly),
{
}

/// Law: both settlement paths leave the game in a terminal status, so by
/// the terminal-status law no further instruction touches it.
pub proof fn lemma_settlement_is_terminal(g: GameAccount, now: i64, final_score: u64)
    ensures
        (GameAccount { status: GameStatus::Completed, score: final_score, is_won: g.game_state.is_won, updated_at: now, ..g }).status != GameStatus::Active,
        (GameAccount { status: GameStatus::Abandoned, updated_at: now, ..g }).status != GameStatus::Active,
        g.game_state.is_won ==> game_after_move(g, now).status != GameStatus::Active,
{
}

} // verus!
