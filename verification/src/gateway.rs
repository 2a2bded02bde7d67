//! What the ledger asks of the token transfer gateway.
//!
//! The ledger moves no tokens itself. Each operation hands back the
//! transfers that go with it; whoever drives the ledger passes them to the
//! gateway and lets the new state of the ledger stand only once all of them
//! went through.

use vstd::prelude::*;
use crate::identity::Identity;

verus! {

/// A token account as an operation sees it: which one it is and what it held
/// when the operation began.
#[derive(Clone, Copy, Debug, PartialEq, Eq)]
pub struct TokenAccount {
    pub key: Identity,
    pub amount: u64,
}

/// The route of a transfer: the token program that is to carry it out, the
/// account that pays, the account that receives and the party that signs.
#[derive(Clone, Copy, Debug, PartialEq, Eq)]
pub struct TransferContext {
    pub program: Identity,
    pub from: Identity,
    pub to: Identity,
    pub authority: Identity,
}

/// One transfer for the gateway: `amount` along `context`. The gateway moves
/// all of it or fails.
#[derive(Clone, Copy, Debug, PartialEq, Eq)]
pub struct TransferOrder {
    pub context: TransferContext,
    pub amount: u64,
}

} // verus!
