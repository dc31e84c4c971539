//! A two-party custodial escrow core with verified fractional settlement.
//!
//! A depositor vaults a quantity of one fungible asset at a fixed aggregate
//! price in a second asset, either by transferring inventory in or by
//! minting it on demand; buyers purchase fractional slices at the exact
//! proportional cost (fills that would require rounding are rejected); the
//! depositor can cancel and reclaim unsold inventory, or destroy it instead.
//! The record and its vault live at addresses derived deterministically from
//! a five-part identity tuple, and the vault's signing authority is
//! reproduced from those parameters plus a stored nonce rather than held as
//! a key.
//!
//! The modules split along those lines: `ratio` guards the deposit
//! proportion, `cost` prices fills exactly, `state` is the five-operation
//! state machine over the record, the vault and the counterparty balances,
//! `address` derives and checks the ledger identities, `mint_auth` prepares
//! co-signer sets for multi-signer mints, and `laws` proves the properties
//! that relate whole operation sequences. The token ledger itself (transfer,
//! mint, burn, close, storage) is an external collaborator reached through
//! the narrow trusted items in `address`; everything else is verified.

pub mod address;
pub mod cost;
pub mod laws;
pub mod mint_auth;
pub mod ratio;
pub mod state;

use vstd::prelude::*;

verus! {

/// The error taxonomy for every escrow operation.
#[derive(Clone, Copy, Debug, PartialEq, Eq, Structural)]
pub enum EscrowError {
    /// Malformed, zero or overflowing inputs, a ratio mismatch, or an
    /// indivisible partial-fill quantity.
    InvalidArgument,
    /// A payer or the vault lacks the required balance, or the cost
    /// bookkeeping would underflow.
    InsufficientFunds,
    /// A signature or authority mismatch surfaced by the ledger.
    Unauthorized,
}

} // verus!
