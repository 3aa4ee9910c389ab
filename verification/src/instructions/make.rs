//! Opening a trade: the record is written and the vault is funded from the maker. The deposit
//! works on the loaded accounts and hands back the order that the token program is to carry
//! out.

use crate::errors::{AccountError, Error, EscrowError};
use crate::events::DepositEvent;
use crate::state::{EscrowAccount, EscrowState};
use crate::token::{
    transfer_checked, transfer_error, Authority, Mint, Signer, TokenAccount, TransferChecked,
};
use vstd::prelude::*;

verus! {

/// The bumps found while the accounts of a `Make` were loaded.
#[derive(Clone, Copy, Debug, PartialEq, Eq)]
pub struct MakeBumps {
    pub escrow: u8,
}

/// What a deposit asks for and tells.
#[derive(Debug, PartialEq, Eq)]
pub struct Deposit {
    /// The order to move the funds into the vault.
    pub order: TransferChecked,
    /// The notice of the deposit for observers.
    pub event: DepositEvent,
}

/// The accounts of one opening, as loaded for the call. The steps work on these copies; the
/// ledger takes them over only when every step has succeeded.
#[derive(Clone, Copy, Debug, PartialEq, Eq)]
pub struct Make {
    /// The party that opens the trade.
    pub maker: Signer,
    pub mint_a: Mint,
    pub mint_b: Mint,
    /// From where the maker funds the vault.
    pub maker_ata_mint_a: TokenAccount,
    /// The record of the trade, not yet written.
    pub escrow: EscrowAccount,
    /// The vault of the trade, held by the record.
    pub vault: TokenAccount,
}

impl Make {
    /// What writing the record does to these accounts. A record is written once, and never for
    /// a trade of a mint against itself.
    pub open spec fn init_escrow_state_result(
        self,
        seed: u64,
        receive_amount: u64,
        bumps: MakeBumps,
    ) -> Result<Make, Error> {
        if self.mint_a.key == self.mint_b.key {
            Err(Error::Escrow(EscrowError::SameMint))
        } else if self.escrow.state is Some {
            Err(Error::Account(AccountError::AccountInUse))
        } else {
            Ok(
                Make {
                    escrow: EscrowAccount {
                        key: self.escrow.key,
                        state: Some(
                            EscrowState {
                                receive_amount,
                                maker: self.maker.key,
                                mint_a: self.mint_a.key,
                                mint_b: self.mint_b.key,
                                bump: bumps.escrow,
                                seed,
                            },
                        ),
                    },
                    ..self
                },
            )
        }
    }

    /// The order of a deposit: `amount` of mint A, from the maker to the vault, on the maker's
    /// signature.
    pub open spec fn funds(self, order: TransferChecked, amount: u64) -> bool {
        &&& order.from == self.maker_ata_mint_a.key
        &&& order.to == self.vault.key
        &&& order.mint == self.mint_a.key
        &&& order.decimals == self.mint_a.decimals
        &&& order.amount == amount
        &&& order.authority == self.maker.key
        &&& order.proof == Authority::Signature(self.maker)
    }

    /// What the deposit does to these accounts, and the event it gives.
    pub open spec fn deposit_result(self, amount: u64, now: i64) -> Result<
        (Make, DepositEvent),
        Error,
    > {
        if self.maker_ata_mint_a.amount < amount {
            Err(Error::Escrow(EscrowError::InsufficientBalance))
        } else {
            match transfer_error(
                self.maker_ata_mint_a,
                self.vault,
                self.mint_a,
                self.maker.is_signer && self.maker.key == self.maker_ata_mint_a.owner,
                amount,
                self.mint_a.decimals,
            ) {
                Some(e) => Err(Error::Token(e)),
                None => Ok(
                    (
                        Make {
                            maker_ata_mint_a: self.maker_ata_mint_a.debited(amount),
                            vault: self.vault.credited(amount),
                            ..self
                        },
                        DepositEvent { maker: self.maker.key, amount, timestamp: now },
                    ),
                ),
            }
        }
    }

    /// Writes the record of the trade: the maker, the two mints, what the maker asks for, and
    /// the seed and bump of the record's address. On an error nothing is written.
    pub fn init_escrow_state(&mut self, seed: u64, receive_amount: u64, bumps: &MakeBumps) -> (r:
        Result<(), Error>)
        ensures
            match old(self).init_escrow_state_result(seed, receive_amount, *bumps) {
                Ok(next) => r is Ok && *final(self) == next,
                Err(e) => r == Err::<(), Error>(e) && *final(self) == *old(self),
            },
    {
        if self.mint_a.key == self.mint_b.key {
            return Err(Error::Escrow(EscrowError::SameMint));
        }
        if self.escrow.state.is_some() {
            return Err(Error::Account(AccountError::AccountInUse));
        }
        self.escrow = EscrowAccount {
            key: self.escrow.key,
            state: Some(
                EscrowState {
                    receive_amount,
                    maker: self.maker.key,
                    mint_a: self.mint_a.key,
                    mint_b: self.mint_b.key,
                    bump: bumps.escrow,
                    seed,
                },
            ),
        };
        Ok(())
    }

    /// Moves `amount` of mint A from the maker into the vault, and hands back the order for it
    /// and the notice of the deposit, stamped with the time `now`. A maker that holds less than
    /// `amount` is refused before anything moves. On an error nothing has moved.
    pub fn deposit(&mut self, amount: u64, now: i64) -> (r: Result<Deposit, Error>)
        ensures
            match old(self).deposit_result(amount, now) {
                Ok((next, event)) => {
                    &&& r matches Ok(deposit)
                    &&& deposit.event == event
                    &&& old(self).funds(deposit.order, amount)
                    &&& *final(self) == next
                },
                Err(e) => r matches Err(err) && err == e && *final(self) == *old(self),
            },
    {
        if self.maker_ata_mint_a.amount < amount {
            return Err(Error::Escrow(EscrowError::InsufficientBalance));
        }
        let proof = Authority::Signature(self.maker);
        let mut from = self.maker_ata_mint_a;
        let mut to = self.vault;
        let decimals = self.mint_a.decimals;
        match transfer_checked(&mut from, &mut to, &self.mint_a, &proof, amount, decimals) {
            Err(e) => Err(Error::Token(e)),
            Ok(()) => {
                self.maker_ata_mint_a = from;
                self.vault = to;
                Ok(
                    Deposit {
                        order: TransferChecked {
                            from: from.key,
                            to: to.key,
                            mint: self.mint_a.key,
                            amount,
                            decimals,
                            authority: self.maker.key,
                            proof,
                        },
                        event: DepositEvent { maker: self.maker.key, amount, timestamp: now },
                    },
                )
            },
        }
    }
}

} // verus!
