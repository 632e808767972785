//! Token service adapter.
//!
//! The token ledger itself (mint, transfer, balances) lives outside the
//! programs; an instruction only decides *which* operation to request and
//! under *whose* authority. An operation is either signed by the user whose
//! tokens move, or by a program-derived signer whose credential is a seed
//! tuple together with the derivation bump. The host performs the returned
//! operations atomically with the state change.

use vstd::prelude::*;
use crate::keys::Pubkey;

verus! {

/// Seed tuples from which program-owned token authorities are derived.
/// One variant per escrow or pool the suite controls.
#[derive(PartialEq, Debug)]
pub enum SeedTuple {
    /// Gaming token stake vault, one per mint.
    StakeVault { mint: Pubkey },
    /// Gaming token reward vault, one per mint.
    RewardVault { mint: Pubkey },
    /// Memecoin game-rewards pool, one per mint.
    RewardsPool { mint: Pubkey },
    /// Memecoin airdrop pool, one per mint.
    AirdropPool { mint: Pubkey },
    /// Solitaire escrow, one per game.
    Escrow { game_id: String },
}

/// Credential of a program-derived signer: the seed tuple and the
/// derivation bump the host found for it.
#[derive(PartialEq, Debug)]
pub struct DerivedSigner {
    pub seeds: SeedTuple,
    pub bump: u8,
}

/// Who authorizes a token operation.
#[derive(PartialEq, Debug)]
pub enum TokenAuthority {
    /// The caller's own signature moves tokens out of the caller's wallet.
    User { key: Pubkey },
    /// A program-derived signer pays out of an escrow or pool.
    Program { signer: DerivedSigner },
}

/// A request to the token service, produced by an instruction and performed
/// by the host after the instruction commits.
#[derive(PartialEq, Debug)]
pub enum TokenOp {
    Mint { mint: Pubkey, to: Pubkey, amount: u64, authority: TokenAuthority },
    Transfer { from: Pubkey, to: Pubkey, amount: u64, authority: TokenAuthority },
}

} // verus!
