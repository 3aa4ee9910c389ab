//! The ways in which an escrow operation can fail.

use vstd::prelude::*;

verus! {

/// A rule of the escrow itself was broken. The caller may try again with corrected inputs.
#[derive(Clone, Copy, Debug, PartialEq, Eq, Structural)]
pub enum EscrowError {
    /// The two sides of the trade name the same mint.
    SameMint,
    /// The maker holds less than the amount to deposit.
    InsufficientBalance,
    /// A balance would pass the largest amount an account can hold.
    Overflow,
    /// The maker's holding account is frozen.
    AccountFrozen,
    /// The vault is not held by the escrow record it was presented with.
    InvalidVaultAuthority,
    /// The vault of a new escrow already exists and holds funds.
    VaultAlreadyFunded,
}

/// The accounts handed to an operation do not fit together.
#[derive(Clone, Copy, Debug, PartialEq, Eq, Structural)]
pub enum AccountError {
    /// A party that has to authorize the call did not sign.
    MissingSignature,
    /// An account that has to exist does not.
    AccountNotFound,
    /// An account that has to be created exists already.
    AccountInUse,
    /// The escrow record is not at the address derived from its seeds.
    SeedsMismatch,
    /// A holding account is not at the address associated with its owner and mint.
    AddressMismatch,
    /// An account belongs to another mint than the one named.
    MintMismatch,
    /// An account belongs to another owner than the one named.
    OwnerMismatch,
    /// One account was handed in for two roles that are both written.
    DuplicateAccount,
    /// The token program handed in is not the one under which the ledger keeps its accounts.
    InvalidProgram,
}

/// The token ledger refused a transfer or a closure.
#[derive(Clone, Copy, Debug, PartialEq, Eq, Structural)]
pub enum TokenError {
    /// The source or the destination is frozen.
    AccountFrozen,
    /// The source holds less than the amount.
    InsufficientFunds,
    /// An account is not of the mint named.
    MintMismatch,
    /// The order states another number of decimals than the mint has.
    MintDecimalsMismatch,
    /// The authority presented does not hold the source.
    OwnerMismatch,
    /// The destination would pass the largest amount an account can hold.
    Overflow,
    /// The account to close still holds funds.
    NonZeroBalance,
}

/// Any failure of an escrow operation. Whatever the kind, the operation changed nothing.
#[derive(Clone, Copy, Debug, PartialEq, Eq, Structural)]
pub enum Error {
    Escrow(EscrowError),
    Account(AccountError),
    Token(TokenError),
}

impl EscrowError {
    /// The text shown to the caller for this error.
    pub fn message(&self) -> (s: &'static str)
        ensures
            s@ == self.message_spec(),
    {
        match self {
            EscrowError::SameMint => "Cannot use same mint for both tokens",
            EscrowError::InsufficientBalance => "Insufficient balance in maker's account",
            EscrowError::Overflow => "Overflow/underflow detected",
            EscrowError::AccountFrozen => "Account is frozen",
            EscrowError::InvalidVaultAuthority => "Invalid vault authority",
            EscrowError::VaultAlreadyFunded => "Vault already contains funds",
        }
    }

    pub open spec fn message_spec(&self) -> Seq<char> {
        match self {
            EscrowError::SameMint => "Cannot use same mint for both tokens"@,
            EscrowError::InsufficientBalance => "Insufficient balance in maker's account"@,
            EscrowError::Overflow => "Overflow/underflow detected"@,
            EscrowError::AccountFrozen => "Account is frozen"@,
            EscrowError::InvalidVaultAuthority => "Invalid vault authority"@,
            EscrowError::VaultAlreadyFunded => "Vault already contains funds"@,
        }
    }
}

} // verus!
