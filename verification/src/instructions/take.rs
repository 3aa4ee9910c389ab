//! Settling a trade: the taker pays the maker, receives what the vault holds, and the vault and
//! the record are closed. Each step works on the loaded accounts and hands back the order that
//! the token program is to carry out.

use crate::address::{signed_address, Address};
use crate::errors::{AccountError, Error, EscrowError};
use crate::state::EscrowAccount;
use crate::token::{
    close_account, close_error, escrow_authority, is_escrow_authority, transfer_checked,
    transfer_error, Authority, CloseAccount, Mint, Signer, TokenAccount, TransferChecked,
};
use vstd::prelude::*;

verus! {

/// What the teardown of a settlement asks for.
#[derive(Debug, PartialEq, Eq)]
pub struct Teardown {
    /// The order to close the vault. Its storage cost goes to the taker, who paid for the
    /// accounts that the settlement created.
    pub vault: CloseAccount,
    /// The receiver of the storage cost of the record: the maker.
    pub escrow_refund: Address,
}

/// The accounts of one settlement, as loaded for the call. The steps work on these copies; the
/// ledger takes them over only when every step has succeeded.
#[derive(Clone, Copy, Debug, PartialEq, Eq)]
pub struct Take {
    /// The party that settles the trade.
    pub taker: Signer,
    /// The party that opened the trade.
    pub maker: Address,
    pub mint_a: Mint,
    pub mint_b: Mint,
    /// Where the taker receives mint A.
    pub taker_ata_mint_a: TokenAccount,
    /// From where the taker pays mint B.
    pub taker_ata_mint_b: TokenAccount,
    /// Where the maker receives mint B.
    pub maker_ata_mint_b: TokenAccount,
    /// The record of the trade; without a state once it is closed.
    pub escrow: EscrowAccount,
    /// The vault of the trade; `None` once it is closed.
    pub vault: Option<TokenAccount>,
    /// The program that owns the record and signs for it.
    pub program_id: Address,
}

impl Take {
    /// Whether `authority` is the program's proof for the record, made from the maker handed
    /// in and the seed and bump stored in the record.
    pub open spec fn is_program_proof(self, authority: Authority) -> bool {
        is_escrow_authority(
            authority,
            self.program_id,
            self.maker,
            self.escrow.state.unwrap().seed,
            self.escrow.state.unwrap().bump,
        )
    }

    /// Whether the program's proof for the record gives authority over the vault.
    pub open spec fn program_holds_vault(self) -> bool {
        signed_address(
            self.program_id,
            self.maker,
            self.escrow.state.unwrap().seed,
            self.escrow.state.unwrap().bump,
        ) == Some(self.vault.unwrap().owner@)
    }

    /// The order of the settlement leg: the record's `receive_amount` of mint B, from the taker
    /// to the maker, on the taker's signature.
    pub open spec fn pays(self, order: TransferChecked) -> bool {
        &&& order.from == self.taker_ata_mint_b.key
        &&& order.to == self.maker_ata_mint_b.key
        &&& order.mint == self.mint_b.key
        &&& order.decimals == self.mint_b.decimals
        &&& order.amount == self.escrow.state.unwrap().receive_amount
        &&& order.authority == self.taker.key
        &&& order.proof == Authority::Signature(self.taker)
    }

    /// The order of the release leg: all that the vault holds, to the taker, on the program's
    /// proof for the record.
    pub open spec fn releases(self, order: TransferChecked) -> bool {
        &&& order.from == self.vault.unwrap().key
        &&& order.to == self.taker_ata_mint_a.key
        &&& order.mint == self.mint_a.key
        &&& order.decimals == self.mint_a.decimals
        &&& order.amount == self.vault.unwrap().amount
        &&& order.authority == self.vault.unwrap().owner
        &&& self.is_program_proof(order.proof)
    }

    /// What the teardown asks for: the vault is closed on the program's proof for the record,
    /// its storage cost goes to the taker, and the storage cost of the record to the maker.
    pub open spec fn tears_down(self, teardown: Teardown) -> bool {
        &&& teardown.vault.account == self.vault.unwrap().key
        &&& teardown.vault.destination == self.taker.key
        &&& teardown.vault.authority == self.vault.unwrap().owner
        &&& self.is_program_proof(teardown.vault.proof)
        &&& teardown.escrow_refund == self.maker
    }

    /// What the settlement leg does to these accounts.
    pub open spec fn transfer_result(self) -> Result<Take, Error> {
        if self.escrow.state is None {
            Err(Error::Account(AccountError::AccountNotFound))
        } else {
            let amount = self.escrow.state.unwrap().receive_amount;
            if self.maker_ata_mint_b.amount + amount > u64::MAX {
                Err(Error::Escrow(EscrowError::Overflow))
            } else {
                match transfer_error(
                    self.taker_ata_mint_b,
                    self.maker_ata_mint_b,
                    self.mint_b,
                    self.taker.is_signer && self.taker.key == self.taker_ata_mint_b.owner,
                    amount,
                    self.mint_b.decimals,
                ) {
                    Some(e) => Err(Error::Token(e)),
                    None => Ok(
                        Take {
                            taker_ata_mint_b: self.taker_ata_mint_b.debited(amount),
                            maker_ata_mint_b: self.maker_ata_mint_b.credited(amount),
                            ..self
                        },
                    ),
                }
            }
        }
    }

    /// What the release leg does to these accounts.
    pub open spec fn withdraw_result(self) -> Result<Take, Error> {
        if self.escrow.state is None || self.vault is None {
            Err(Error::Account(AccountError::AccountNotFound))
        } else {
            let vault = self.vault.unwrap();
            if self.taker_ata_mint_a.amount + vault.amount > u64::MAX {
                Err(Error::Escrow(EscrowError::Overflow))
            } else {
                match transfer_error(
                    vault,
                    self.taker_ata_mint_a,
                    self.mint_a,
                    self.program_holds_vault(),
                    vault.amount,
                    self.mint_a.decimals,
                ) {
                    Some(e) => Err(Error::Token(e)),
                    None => Ok(
                        Take {
                            vault: Some(vault.debited(vault.amount)),
                            taker_ata_mint_a: self.taker_ata_mint_a.credited(vault.amount),
                            ..self
                        },
                    ),
                }
            }
        }
    }

    /// What the teardown does to these accounts: the emptied vault and the record are closed.
    pub open spec fn close_result(self) -> Result<Take, Error> {
        if self.escrow.state is None || self.vault is None {
            Err(Error::Account(AccountError::AccountNotFound))
        } else {
            match close_error(self.vault.unwrap(), self.program_holds_vault()) {
                Some(e) => Err(Error::Token(e)),
                None => Ok(
                    Take {
                        vault: None,
                        escrow: EscrowAccount { key: self.escrow.key, state: None },
                        ..self
                    },
                ),
            }
        }
    }

    /// The settlement leg: pays the maker the record's `receive_amount` of mint B from the
    /// taker's account, and hands back the order for it. On an error nothing has moved.
    pub fn transfer(&mut self) -> (r: Result<TransferChecked, Error>)
        ensures
            match old(self).transfer_result() {
                Ok(next) => r matches Ok(order) && old(self).pays(order) && *final(self) == next,
                Err(e) => r matches Err(err) && err == e && *final(self) == *old(self),
            },
    {
        let record = match self.escrow.state {
            Some(record) => record,
            None => {
                return Err(Error::Account(AccountError::AccountNotFound));
            },
        };
        let amount = record.receive_amount;
        if self.maker_ata_mint_b.amount.checked_add(amount).is_none() {
            return Err(Error::Escrow(EscrowError::Overflow));
        }
        let proof = Authority::Signature(self.taker);
        let mut from = self.taker_ata_mint_b;
        let mut to = self.maker_ata_mint_b;
        let decimals = self.mint_b.decimals;
        match transfer_checked(&mut from, &mut to, &self.mint_b, &proof, amount, decimals) {
            Err(e) => Err(Error::Token(e)),
            Ok(()) => {
                self.taker_ata_mint_b = from;
                self.maker_ata_mint_b = to;
                Ok(
                    TransferChecked {
                        from: from.key,
                        to: to.key,
                        mint: self.mint_b.key,
                        amount,
                        decimals,
                        authority: self.taker.key,
                        proof,
                    },
                )
            },
        }
    }

    /// The release leg: hands the taker all that the vault holds, whatever was deposited, and
    /// hands back the order for it. The program signs with the seeds of the record. On an
    /// error nothing has moved.
    pub fn withdraw(&mut self) -> (r: Result<TransferChecked, Error>)
        ensures
            match old(self).withdraw_result() {
                Ok(next) => r matches Ok(order) && old(self).releases(order) && *final(self)
                    == next,
                Err(e) => r matches Err(err) && err == e && *final(self) == *old(self),
            },
    {
        let record = match self.escrow.state {
            Some(record) => record,
            None => {
                return Err(Error::Account(AccountError::AccountNotFound));
            },
        };
        let mut from = match self.vault {
            Some(vault) => vault,
            None => {
                return Err(Error::Account(AccountError::AccountNotFound));
            },
        };
        let amount = from.amount;
        if self.taker_ata_mint_a.amount.checked_add(amount).is_none() {
            return Err(Error::Escrow(EscrowError::Overflow));
        }
        let proof = escrow_authority(&self.program_id, &self.maker, record.seed, record.bump);
        let mut to = self.taker_ata_mint_a;
        let decimals = self.mint_a.decimals;
        match transfer_checked(&mut from, &mut to, &self.mint_a, &proof, amount, decimals) {
            Err(e) => Err(Error::Token(e)),
            Ok(()) => {
                self.vault = Some(from);
                self.taker_ata_mint_a = to;
                Ok(
                    TransferChecked {
                        from: from.key,
                        to: to.key,
                        mint: self.mint_a.key,
                        amount,
                        decimals,
                        authority: from.owner,
                        proof,
                    },
                )
            },
        }
    }

    /// The teardown: closes the emptied vault and the record, and hands back the order to
    /// close the vault and the receiver of the record's storage cost. The program signs with
    /// the seeds of the record. On an error both are still open.
    pub fn close(&mut self) -> (r: Result<Teardown, Error>)
        ensures
            match old(self).close_result() {
                Ok(next) => {
                    &&& r matches Ok(teardown)
                    &&& old(self).tears_down(teardown)
                    &&& *final(self) == next
                },
                Err(e) => r matches Err(err) && err == e && *final(self) == *old(self),
            },
    {
        let record = match self.escrow.state {
            Some(record) => record,
            None => {
                return Err(Error::Account(AccountError::AccountNotFound));
            },
        };
        let vault = match self.vault {
            Some(vault) => vault,
            None => {
                return Err(Error::Account(AccountError::AccountNotFound));
            },
        };
        let proof = escrow_authority(&self.program_id, &self.maker, record.seed, record.bump);
        match close_account(&vault, &proof) {
            Err(e) => Err(Error::Token(e)),
            Ok(()) => {
                self.vault = None;
                self.escrow = EscrowAccount { key: self.escrow.key, state: None };
                Ok(
                    Teardown {
                        vault: CloseAccount {
                            account: vault.key,
                            destination: self.taker.key,
                            authority: vault.owner,
                            proof,
                        },
                        escrow_refund: self.maker,
                    },
                )
            },
        }
    }
}

} // verus!
