//! Holding accounts, the orders to move funds between them and to close them, and what the
//! token ledger does with an order: it obeys whoever proves authority over the source.

use crate::address::{
    create_program_address, escrow_signer_seeds, escrow_signer_seeds_vec, program_address,
    seeds_view, Address,
};
use crate::errors::TokenError;
use vstd::prelude::*;

verus! {

/// A party to a call, and whether it signed the call.
#[derive(Clone, Copy, Debug, PartialEq, Eq)]
pub struct Signer {
    pub key: Address,
    pub is_signer: bool,
}

/// A kind of asset, and the number of decimals in which its amounts are written.
#[derive(Clone, Copy, Debug, PartialEq, Eq)]
pub struct Mint {
    pub key: Address,
    pub decimals: u8,
}

/// An account that holds an amount of one mint for its owner.
#[derive(Clone, Copy, Debug, PartialEq, Eq)]
pub struct TokenAccount {
    pub key: Address,
    pub mint: Address,
    pub owner: Address,
    pub amount: u64,
    pub frozen: bool,
}

/// A proof of authority over an account: the signature of a party, or the seeds from which a
/// program derives the address that owns the account. No key is stored with it: a program
/// proves its authority by deriving the address again.
#[derive(Debug, PartialEq, Eq)]
pub enum Authority {
    Signature(Signer),
    Program { program_id: Address, seeds: Vec<Vec<u8>> },
}

/// An order to the token program: move `amount` of `mint`, which has `decimals` decimals, from
/// one holding account to another, in the name of `authority`, which `proof` shows.
#[derive(Debug, PartialEq, Eq)]
pub struct TransferChecked {
    pub from: Address,
    pub to: Address,
    pub mint: Address,
    pub amount: u64,
    pub decimals: u8,
    pub authority: Address,
    pub proof: Authority,
}

/// An order to the token program: close an emptied holding account and hand its storage cost
/// to `destination`, in the name of `authority`, which `proof` shows.
#[derive(Debug, PartialEq, Eq)]
pub struct CloseAccount {
    pub account: Address,
    pub destination: Address,
    pub authority: Address,
    pub proof: Authority,
}

impl Authority {
    /// Whether this proof gives authority over what `owner` holds.
    pub open spec fn authorizes(&self, owner: Address) -> bool {
        match *self {
            Authority::Signature(signer) => signer.is_signer && signer.key == owner,
            Authority::Program { program_id, seeds } => program_address(
                seeds_view(seeds@),
                program_id@,
            ) == Some(owner@),
        }
    }

    /// Decides whether this proof gives authority over what `owner` holds.
    pub fn check(&self, owner: &Address) -> (b: bool)
        ensures
            b == self.authorizes(*owner),
    {
        match self {
            Authority::Signature(signer) => signer.is_signer && signer.key == *owner,
            Authority::Program { program_id, seeds } => {
                match create_program_address(seeds, program_id) {
                    Some(a) => {
                        proof {
                            if a@ == owner@ {
                                Address::lemma_view_injective(a, *owner);
                            }
                        }
                        a == *owner
                    },
                    None => false,
                }
            },
        }
    }
}

/// Whether `authority` is the proof with which the program `program_id` signs for the escrow
/// record of `maker`, `seed` and `bump`.
pub open spec fn is_escrow_authority(
    authority: Authority,
    program_id: Address,
    maker: Address,
    seed: u64,
    bump: u8,
) -> bool {
    authority matches Authority::Program { program_id: p, seeds } && p == program_id && seeds_view(
        seeds@,
    ) == escrow_signer_seeds(maker, seed, bump)
}

/// The proof with which the program signs for an escrow record. It is made from the program's
/// identity and the record's seeds alone.
pub fn escrow_authority(program_id: &Address, maker: &Address, seed: u64, bump: u8) -> (authority:
    Authority)
    ensures
        is_escrow_authority(authority, *program_id, *maker, seed, bump),
{
    let seeds = escrow_signer_seeds_vec(maker, seed, bump);
    Authority::Program { program_id: *program_id, seeds }
}

impl TokenAccount {
    /// An empty account at `key` that holds `mint` for `owner`.
    pub fn new(key: Address, mint: Address, owner: Address) -> (account: TokenAccount)
        ensures
            account == (TokenAccount { key, mint, owner, amount: 0, frozen: false }),
    {
        TokenAccount { key, mint, owner, amount: 0, frozen: false }
    }

    /// This account with `amount` taken out.
    pub open spec fn debited(self, amount: u64) -> TokenAccount {
        TokenAccount { amount: (self.amount - amount) as u64, ..self }
    }

    /// This account with `amount` put in.
    pub open spec fn credited(self, amount: u64) -> TokenAccount {
        TokenAccount { amount: (self.amount + amount) as u64, ..self }
    }
}

/// Why the ledger refuses to move `amount` of `mint`, stated in `decimals` decimals, from `from`
/// to `to`, if it does.
pub open spec fn transfer_error(
    from: TokenAccount,
    to: TokenAccount,
    mint: Mint,
    authorized: bool,
    amount: u64,
    decimals: u8,
) -> Option<TokenError> {
    if from.frozen || to.frozen {
        Some(TokenError::AccountFrozen)
    } else if from.amount < amount {
        Some(TokenError::InsufficientFunds)
    } else if from.mint != mint.key || to.mint != mint.key {
        Some(TokenError::MintMismatch)
    } else if decimals != mint.decimals {
        Some(TokenError::MintDecimalsMismatch)
    } else if !authorized {
        Some(TokenError::OwnerMismatch)
    } else if to.amount + amount > u64::MAX {
        Some(TokenError::Overflow)
    } else {
        None
    }
}

/// Moves `amount` of `mint`, stated in `decimals` decimals, from `from` to `to` on the word of
/// `authority`. The whole amount moves or nothing does.
pub fn transfer_checked(
    from: &mut TokenAccount,
    to: &mut TokenAccount,
    mint: &Mint,
    authority: &Authority,
    amount: u64,
    decimals: u8,
) -> (r: Result<(), TokenError>)
    ensures
        match transfer_error(
            *old(from),
            *old(to),
            *mint,
            authority.authorizes(old(from).owner),
            amount,
            decimals,
        ) {
            Some(e) => r == Err::<(), TokenError>(e) && *final(from) == *old(from) && *final(to)
                == *old(to),
            None => r is Ok && *final(from) == old(from).debited(amount) && *final(to) == old(
                to,
            ).credited(amount),
        },
{
    if from.frozen || to.frozen {
        return Err(TokenError::AccountFrozen);
    }
    if from.amount < amount {
        return Err(TokenError::InsufficientFunds);
    }
    if from.mint != mint.key || to.mint != mint.key {
        return Err(TokenError::MintMismatch);
    }
    if decimals != mint.decimals {
        return Err(TokenError::MintDecimalsMismatch);
    }
    if !authority.check(&from.owner) {
        return Err(TokenError::OwnerMismatch);
    }
    match to.amount.checked_add(amount) {
        None => Err(TokenError::Overflow),
        Some(sum) => {
            from.amount = from.amount - amount;
            to.amount = sum;
            Ok(())
        },
    }
}

/// Why the ledger refuses to close `account`, if it does.
pub open spec fn close_error(account: TokenAccount, authorized: bool) -> Option<TokenError> {
    if account.amount != 0 {
        Some(TokenError::NonZeroBalance)
    } else if !authorized {
        Some(TokenError::OwnerMismatch)
    } else {
        None
    }
}

/// Decides whether `account` may be closed on the word of `authority`: it has to be empty, and
/// the authority has to hold it.
pub fn close_account(account: &TokenAccount, authority: &Authority) -> (r: Result<(), TokenError>)
    ensures
        match close_error(*account, authority.authorizes(account.owner)) {
            Some(e) => r == Err::<(), TokenError>(e),
            None => r is Ok,
        },
{
    if account.amount != 0 {
        return Err(TokenError::NonZeroBalance);
    }
    if !authority.check(&account.owner) {
        return Err(TokenError::OwnerMismatch);
    }
    Ok(())
}

} // verus!
