//! Deterministic state machines and settlement engine for a small on-chain
//! application suite: a gaming token with time-locked staking and linear
//! rewards, a fixed-supply memecoin with pooled allocations and time-gated
//! airdrops, and a solitaire game with escrowed stakes.
//!
//! The host runtime (signature checking, clock, account creation) and the
//! token ledger (mint/transfer/balance) are modelled as opaque ports: every
//! instruction takes the verified caller identity and the host clock as plain
//! values, and returns the token operations the host must perform, together
//! with the events appended to the log.

pub mod keys;
pub mod token;
pub mod gaming_token;
pub mod memecoin;
pub mod solitaire;
