//! A two-party atomic-swap escrow over a token ledger.

pub mod address;
pub mod errors;
pub mod events;
pub mod instructions;
pub mod laws;
pub mod ledger;
pub mod state;
pub mod store;
pub mod token;

use vstd::prelude::*;

pub use address::Address;
pub use errors::{AccountError, Error, EscrowError, TokenError};
pub use events::DepositEvent;
pub use instructions::make::{Deposit, Make, MakeBumps};
pub use instructions::take::{Take, Teardown};
pub use ledger::{Ledger, LedgerView, MakeAccounts, Settlement, TakeAccounts};
pub use state::{EscrowAccount, EscrowState};
pub use token::{Authority, CloseAccount, Mint, Signer, TokenAccount, TransferChecked};

verus! {

/// The accounts of `initialize`: none.
#[derive(Clone, Copy, Debug, PartialEq, Eq, Structural)]
pub struct Initialize {}

/// Answers that the program is there. It reads no account and changes none.
pub fn initialize(accounts: &Initialize) -> (r: Result<(), Error>)
    ensures
        r is Ok,
{
    Ok(())
}

} // verus!
