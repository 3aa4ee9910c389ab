//! What an escrow operation tells observers outside the ledger.

use crate::address::Address;
use vstd::prelude::*;

verus! {

/// A maker has locked funds in a vault.
#[derive(Clone, Copy, Debug, PartialEq, Eq)]
pub struct DepositEvent {
    pub maker: Address,
    pub amount: u64,
    pub timestamp: i64,
}

} // verus!
