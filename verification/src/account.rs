//! The persistent escrow record and the identities it refers to.

use vstd::prelude::*;

verus! {

/// An identity handle: an opaque 256-bit key naming a signer or a
/// token-holding account, held as four 64-bit words. The ledger only ever
/// compares identities for equality.
#[derive(Clone, Copy, PartialEq, Eq, Structural, Debug)]
pub struct Identity {
    pub w0: u64,
    pub w1: u64,
    pub w2: u64,
    pub w3: u64,
}

/// The persistent escrow record: one per escrow instance.
///
/// `owner` and `token_account` are set once at initialization and never
/// change afterwards; `balance` is the amount currently held, in token base
/// units, and is mutated only by committing a deposit or a withdrawal.
#[derive(Clone, Copy, PartialEq, Eq, Structural, Debug)]
pub struct EscrowAccount {
    /// The sole identity authorized to deposit and withdraw.
    pub owner: Identity,
    /// The token-holding account the escrow custodies.
    pub token_account: Identity,
    /// The amount currently held, in token base units.
    pub balance: u64,
}

} // verus!
