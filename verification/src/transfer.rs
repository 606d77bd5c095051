//! Transfers the host runtime is asked to perform after a call returns.
//! The library never moves funds itself: an entry point that pays out
//! returns one of these values and the host dispatches it.

use vstd::prelude::*;

verus! {

/// A payment of native currency to one account.
#[derive(Debug)]
pub struct Transfer {
    pub receiver: String,
    pub amount: u128,
}

/// A payment routed through a fungible-token contract.
#[derive(Debug)]
pub struct TokenTransfer {
    /// The token contract asked to move the funds.
    pub token: String,
    pub receiver: String,
    pub amount: u128,
}

} // verus!
