//! Principal identities.
//!
//! The host runtime verifies signatures and hands each instruction the
//! public key of the signed caller. The state machines only ever compare
//! keys for equality, so a key is modelled as a plain identifier.

use vstd::prelude::*;

verus! {

/// A public key as handed out by the host runtime: an opaque identifier,
/// compared only for equality.
#[derive(Clone, Copy, PartialEq, Eq, Structural, Debug, Hash)]
pub struct Pubkey {
    pub id: u64,
}

impl Pubkey {
    pub fn new(id: u64) -> (r: Pubkey)
        ensures
            r.id == id,
    {
        Pubkey { id }
    }
}

} // verus!
