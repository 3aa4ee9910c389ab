//! The ledger: the holding accounts and the open escrow records, each under its address, and
//! the two operations that change them. An operation loads the accounts it is handed, checks
//! how they belong together, runs its steps on the loaded copies, and writes the copies back
//! only when every step has succeeded.

use crate::address::{
    associated_address, escrow_address, find_associated_address, find_escrow_address,
    derive_escrow_address, signed_address, Address,
};
use crate::errors::{AccountError, Error, EscrowError};
use crate::events::DepositEvent;
use crate::instructions::make::{Deposit, Make, MakeBumps};
use crate::instructions::take::{Take, Teardown};
use crate::laws::{
    lemma_make_opens_and_funds, lemma_take_pays_exact_amount, lemma_take_releases_whole_vault,
};
use crate::state::{EscrowAccount, EscrowState};
use crate::store::AddressMap;
use crate::token::{
    is_escrow_authority, Authority, Mint, Signer, TokenAccount, TransferChecked,
};
use vstd::prelude::*;

verus! {

/// The accounts that a caller hands to `make`.
#[derive(Clone, Copy, Debug, PartialEq, Eq)]
pub struct MakeAccounts {
    /// The party that opens the trade; it has to sign.
    pub maker: Signer,
    pub mint_a: Address,
    pub mint_b: Address,
    /// The maker's holding account of mint A.
    pub maker_ata_mint_a: Address,
    /// Where the record is to be created.
    pub escrow: Address,
    /// Where the vault is to be created.
    pub vault: Address,
    /// The program that is to move the funds.
    pub token_program: Address,
}

/// The accounts that a caller hands to `take`.
#[derive(Clone, Copy, Debug, PartialEq, Eq)]
pub struct TakeAccounts {
    /// The party that settles the trade; it has to sign.
    pub taker: Signer,
    /// The party that opened the trade; it does not sign.
    pub maker: Address,
    pub mint_a: Address,
    pub mint_b: Address,
    /// The taker's holding account of mint A, created if it does not exist.
    pub taker_ata_mint_a: Address,
    /// The taker's holding account of mint B.
    pub taker_ata_mint_b: Address,
    /// The maker's holding account of mint B, created if it does not exist.
    pub maker_ata_mint_b: Address,
    /// The record of the trade.
    pub escrow: Address,
    /// The vault of the trade.
    pub vault: Address,
}

/// What a settlement asks of the token program, in the order in which it is to be done: the
/// maker is paid before the vault is released, and the vault is released before it is closed.
#[derive(Debug, PartialEq, Eq)]
pub struct Settlement {
    pub payment: TransferChecked,
    pub release: TransferChecked,
    pub teardown: Teardown,
}

/// What a ledger holds, as maps.
#[verifier::ext_equal]
pub struct LedgerView {
    /// The escrow program: it owns the records and signs for them.
    pub program_id: Address,
    /// The program under which holding accounts are kept.
    pub token_program: Address,
    /// The program that derives the address of a holding account from its owner and mint.
    pub associated_token_program: Address,
    /// The mints, by address.
    pub mints: Map<Address, Mint>,
    /// The holding accounts, by address.
    pub tokens: Map<Address, TokenAccount>,
    /// The open escrow records, by address.
    pub escrows: Map<Address, EscrowState>,
}

/// The token ledger with the open escrows.
pub struct Ledger {
    program_id: Address,
    token_program: Address,
    associated_token_program: Address,
    mints: AddressMap<Mint>,
    tokens: AddressMap<TokenAccount>,
    escrows: AddressMap<EscrowState>,
}

impl View for Ledger {
    type V = LedgerView;

    closed spec fn view(&self) -> LedgerView {
        LedgerView {
            program_id: self.program_id,
            token_program: self.token_program,
            associated_token_program: self.associated_token_program,
            mints: self.mints@,
            tokens: self.tokens@,
            escrows: self.escrows@,
        }
    }
}

impl TakeAccounts {
    /// Whether one address stands for two of the four holding accounts.
    pub open spec fn has_duplicates(self) -> bool {
        ||| self.taker_ata_mint_a == self.taker_ata_mint_b
        ||| self.taker_ata_mint_a == self.maker_ata_mint_b
        ||| self.taker_ata_mint_a == self.vault
        ||| self.taker_ata_mint_b == self.maker_ata_mint_b
        ||| self.taker_ata_mint_b == self.vault
        ||| self.maker_ata_mint_b == self.vault
    }
}

impl LedgerView {
    /// Every mint and every holding account knows its own address, and every record is well
    /// formed.
    pub open spec fn wf(self) -> bool {
        &&& forall|k: Address| #[trigger] self.mints.dom().contains(k) ==> self.mints[k].key == k
        &&& forall|k: Address| #[trigger] self.tokens.dom().contains(k) ==> self.tokens[k].key == k
        &&& forall|k: Address| #[trigger] self.escrows.dom().contains(k) ==> self.escrows[k].wf()
    }

    /// What `key` holds, or zero where there is no such account.
    pub open spec fn balance(self, key: Address) -> nat {
        if self.tokens.dom().contains(key) {
            self.tokens[key].amount as nat
        } else {
            0
        }
    }

    /// The holding account of `owner` for `mint`, looked for at `key`. The address has to be the
    /// one associated with the owner and the mint, and the account found there has to name both.
    /// With `on_demand`, an account that does not exist is created empty.
    pub open spec fn holding(self, key: Address, owner: Address, mint: Address, on_demand: bool)
        -> Result<TokenAccount, Error> {
        if associated_address(self.associated_token_program, owner, self.token_program, mint)
            != Some(key@) {
            Err(Error::Account(AccountError::AddressMismatch))
        } else if !self.tokens.dom().contains(key) {
            if on_demand {
                Ok(TokenAccount { key, mint, owner, amount: 0, frozen: false })
            } else {
                Err(Error::Account(AccountError::AccountNotFound))
            }
        } else if self.tokens[key].mint != mint {
            Err(Error::Account(AccountError::MintMismatch))
        } else if self.tokens[key].owner != owner {
            Err(Error::Account(AccountError::OwnerMismatch))
        } else {
            Ok(self.tokens[key])
        }
    }

    /// The vault of the record at `record`, looked for at `key`: the holding account of the
    /// record's address for `mint`.
    pub open spec fn vault_of(self, key: Address, record: Address, mint: Address) -> Result<
        TokenAccount,
        Error,
    > {
        match self.holding(key, record, mint, false) {
            Err(Error::Account(AccountError::OwnerMismatch)) => Err(
                Error::Escrow(EscrowError::InvalidVaultAuthority),
            ),
            r => r,
        }
    }

    /// The accounts of an opening, loaded and checked: the mints differ, the maker signed, the
    /// token program is the ledger's, both mints exist, the maker holds an unfrozen account of
    /// mint A, the record's address is the one derived from the maker and the seed and is free,
    /// and so is the vault's, which is the address associated with the record and mint A.
    pub open spec fn load_make(self, a: MakeAccounts, seed: u64) -> Result<
        (Make, MakeBumps),
        Error,
    > {
        if a.mint_a == a.mint_b {
            Err(Error::Escrow(EscrowError::SameMint))
        } else if !a.maker.is_signer {
            Err(Error::Account(AccountError::MissingSignature))
        } else if a.token_program != self.token_program {
            Err(Error::Account(AccountError::InvalidProgram))
        } else if !self.mints.dom().contains(a.mint_a) || !self.mints.dom().contains(a.mint_b) {
            Err(Error::Account(AccountError::AccountNotFound))
        } else {
            match self.holding(a.maker_ata_mint_a, a.maker.key, a.mint_a, false) {
                Err(e) => Err(e),
                Ok(maker_ata_mint_a) => if maker_ata_mint_a.frozen {
                    Err(Error::Escrow(EscrowError::AccountFrozen))
                } else {
                    match escrow_address(self.program_id, a.maker.key, seed) {
                        None => Err(Error::Account(AccountError::SeedsMismatch)),
                        Some((found, bump)) => if found != a.escrow@ {
                            Err(Error::Account(AccountError::SeedsMismatch))
                        } else if self.escrows.dom().contains(a.escrow) {
                            Err(Error::Account(AccountError::AccountInUse))
                        } else if associated_address(
                            self.associated_token_program,
                            a.escrow,
                            self.token_program,
                            a.mint_a,
                        ) != Some(a.vault@) {
                            Err(Error::Account(AccountError::AddressMismatch))
                        } else if self.tokens.dom().contains(a.vault) {
                            if self.tokens[a.vault].amount > 0 {
                                Err(Error::Escrow(EscrowError::VaultAlreadyFunded))
                            } else {
                                Err(Error::Account(AccountError::AccountInUse))
                            }
                        } else {
                            Ok(
                                (
                                    Make {
                                        maker: a.maker,
                                        mint_a: self.mints[a.mint_a],
                                        mint_b: self.mints[a.mint_b],
                                        maker_ata_mint_a,
                                        escrow: EscrowAccount { key: a.escrow, state: None },
                                        vault: TokenAccount {
                                            key: a.vault,
                                            mint: a.mint_a,
                                            owner: a.escrow,
                                            amount: 0,
                                            frozen: false,
                                        },
                                    },
                                    MakeBumps { escrow: bump },
                                ),
                            )
                        },
                    }
                },
            }
        }
    }

    /// The order of the deposit of an opening: `amount` of mint A, from the maker's account to
    /// the vault, on the maker's signature.
    pub open spec fn deposits(self, a: MakeAccounts, amount: u64, order: TransferChecked) -> bool {
        &&& order.from == a.maker_ata_mint_a
        &&& order.to == a.vault
        &&& order.mint == a.mint_a
        &&& order.decimals == self.mints[a.mint_a].decimals
        &&& order.amount == amount
        &&& order.authority == a.maker.key
        &&& order.proof == Authority::Signature(a.maker)
    }

    /// Whether `authority` is the program's proof for the record at `a.escrow`.
    pub open spec fn is_program_proof(self, a: TakeAccounts, authority: Authority) -> bool {
        is_escrow_authority(
            authority,
            self.program_id,
            a.maker,
            self.escrows[a.escrow].seed,
            self.escrows[a.escrow].bump,
        )
    }

    /// The orders of a settlement: the record's `receive_amount` of mint B from the taker to
    /// the maker on the taker's signature; all that the vault holds to the taker, and the
    /// closure of the vault in favour of the taker, both on the program's proof for the
    /// record; and the storage cost of the record to the maker.
    pub open spec fn settles(self, a: TakeAccounts, s: Settlement) -> bool {
        &&& s.payment.from == a.taker_ata_mint_b
        &&& s.payment.to == a.maker_ata_mint_b
        &&& s.payment.mint == a.mint_b
        &&& s.payment.decimals == self.mints[a.mint_b].decimals
        &&& s.payment.amount == self.escrows[a.escrow].receive_amount
        &&& s.payment.authority == a.taker.key
        &&& s.payment.proof == Authority::Signature(a.taker)
        &&& s.release.from == a.vault
        &&& s.release.to == a.taker_ata_mint_a
        &&& s.release.mint == a.mint_a
        &&& s.release.decimals == self.mints[a.mint_a].decimals
        &&& s.release.amount == self.balance(a.vault)
        &&& s.release.authority == a.escrow
        &&& self.is_program_proof(a, s.release.proof)
        &&& s.teardown.vault.account == a.vault
        &&& s.teardown.vault.destination == a.taker.key
        &&& s.teardown.vault.authority == a.escrow
        &&& self.is_program_proof(a, s.teardown.vault.proof)
        &&& s.teardown.escrow_refund == a.maker
    }

    /// The ledger once the accounts of a finished opening are written back.
    pub open spec fn commit_make(self, done: Make) -> LedgerView {
        LedgerView {
            tokens: self.tokens.insert(done.maker_ata_mint_a.key, done.maker_ata_mint_a).insert(
                done.vault.key,
                done.vault,
            ),
            escrows: self.escrows.insert(done.escrow.key, done.escrow.state.unwrap()),
            ..self
        }
    }

    /// What `make` does: the ledger it leaves and the event it gives, or the error with which it
    /// leaves the ledger as it was.
    pub open spec fn make(
        self,
        a: MakeAccounts,
        seed: u64,
        receive_amount: u64,
        amount: u64,
        now: i64,
    ) -> Result<(LedgerView, DepositEvent), Error> {
        match self.load_make(a, seed) {
            Err(e) => Err(e),
            Ok((loaded, bumps)) => match loaded.init_escrow_state_result(
                seed,
                receive_amount,
                bumps,
            ) {
                Err(e) => Err(e),
                Ok(written) => match written.deposit_result(amount, now) {
                    Err(e) => Err(e),
                    Ok((done, event)) => Ok((self.commit_make(done), event)),
                },
            },
        }
    }

    /// The accounts of a settlement, loaded and checked: the taker signed, the record exists at
    /// the address derived from its own maker, seed and bump, it names the maker and the two
    /// mints handed in, both mints exist, the four holding accounts are four accounts, each at
    /// the address associated with its owner and mint, and the vault is held by the record.
    pub open spec fn load_take(self, a: TakeAccounts) -> Result<Take, Error> {
        if !a.taker.is_signer {
            Err(Error::Account(AccountError::MissingSignature))
        } else if !self.escrows.dom().contains(a.escrow) {
            Err(Error::Account(AccountError::AccountNotFound))
        } else {
            let record = self.escrows[a.escrow];
            if signed_address(self.program_id, record.maker, record.seed, record.bump) != Some(
                a.escrow@,
            ) {
                Err(Error::Account(AccountError::SeedsMismatch))
            } else if record.maker != a.maker {
                Err(Error::Account(AccountError::OwnerMismatch))
            } else if record.mint_a != a.mint_a || record.mint_b != a.mint_b {
                Err(Error::Account(AccountError::MintMismatch))
            } else if !self.mints.dom().contains(a.mint_a) || !self.mints.dom().contains(
                a.mint_b,
            ) {
                Err(Error::Account(AccountError::AccountNotFound))
            } else if a.has_duplicates() {
                Err(Error::Account(AccountError::DuplicateAccount))
            } else {
                match self.holding(a.taker_ata_mint_a, a.taker.key, a.mint_a, true) {
                    Err(e) => Err(e),
                    Ok(taker_ata_mint_a) => match self.holding(
                        a.taker_ata_mint_b,
                        a.taker.key,
                        a.mint_b,
                        false,
                    ) {
                        Err(e) => Err(e),
                        Ok(taker_ata_mint_b) => match self.holding(
                            a.maker_ata_mint_b,
                            a.maker,
                            a.mint_b,
                            true,
                        ) {
                            Err(e) => Err(e),
                            Ok(maker_ata_mint_b) => match self.vault_of(
                                a.vault,
                                a.escrow,
                                a.mint_a,
                            ) {
                                Err(e) => Err(e),
                                Ok(vault) => Ok(
                                    Take {
                                        taker: a.taker,
                                        maker: a.maker,
                                        mint_a: self.mints[a.mint_a],
                                        mint_b: self.mints[a.mint_b],
                                        taker_ata_mint_a,
                                        taker_ata_mint_b,
                                        maker_ata_mint_b,
                                        escrow: EscrowAccount {
                                            key: a.escrow,
                                            state: Some(record),
                                        },
                                        vault: Some(vault),
                                        program_id: self.program_id,
                                    },
                                ),
                            },
                        },
                    },
                }
            }
        }
    }

    /// The ledger once the accounts of a finished settlement are written back and the vault and
    /// the record are removed.
    pub open spec fn commit_take(self, done: Take, vault: Address) -> LedgerView {
        LedgerView {
            tokens: self.tokens.insert(done.taker_ata_mint_a.key, done.taker_ata_mint_a).insert(
                done.taker_ata_mint_b.key,
                done.taker_ata_mint_b,
            ).insert(done.maker_ata_mint_b.key, done.maker_ata_mint_b).remove(vault),
            escrows: self.escrows.remove(done.escrow.key),
            ..self
        }
    }

    /// What `take` does: the ledger it leaves, or the error with which it leaves the ledger as
    /// it was. The maker is paid before the vault is released.
    pub open spec fn take(self, a: TakeAccounts) -> Result<LedgerView, Error> {
        match self.load_take(a) {
            Err(e) => Err(e),
            Ok(loaded) => match loaded.transfer_result() {
                Err(e) => Err(e),
                Ok(paid) => match paid.withdraw_result() {
                    Err(e) => Err(e),
                    Ok(released) => match released.close_result() {
                        Err(e) => Err(e),
                        Ok(done) => Ok(self.commit_take(done, a.vault)),
                    },
                },
            },
        }
    }
}

impl Ledger {
    /// The lists behind the two maps are in order, and what they hold is well formed.
    pub closed spec fn wf(&self) -> bool {
        &&& self.mints.wf()
        &&& self.tokens.wf()
        &&& self.escrows.wf()
        &&& self@.wf()
    }

    /// A well-formed ledger holds well-formed maps.
    pub proof fn lemma_wf(&self)
        requires
            self.wf(),
        ensures
            self@.wf(),
    {
    }

    /// An empty ledger for the escrow program `program_id`, with holding accounts kept under
    /// `token_program` at the addresses that `associated_token_program` derives.
    pub fn new(
        program_id: Address,
        token_program: Address,
        associated_token_program: Address,
    ) -> (ledger: Ledger)
        ensures
            ledger.wf(),
            ledger@ == (LedgerView {
                program_id,
                token_program,
                associated_token_program,
                mints: Map::<Address, Mint>::empty(),
                tokens: Map::<Address, TokenAccount>::empty(),
                escrows: Map::<Address, EscrowState>::empty(),
            }),
    {
        Ledger {
            program_id,
            token_program,
            associated_token_program,
            mints: AddressMap::new(),
            tokens: AddressMap::new(),
            escrows: AddressMap::new(),
        }
    }

    /// Enters the mint `mint` at the address it names. An address that is taken is refused,
    /// and nothing changes.
    pub fn put_mint(&mut self, mint: Mint) -> (r: Result<(), Error>)
        requires
            old(self).wf(),
        ensures
            final(self).wf(),
            r == (if old(self)@.mints.dom().contains(mint.key) {
                Err::<(), Error>(Error::Account(AccountError::AccountInUse))
            } else {
                Ok::<(), Error>(())
            }),
            r is Err ==> final(self)@ == old(self)@,
            r is Ok ==> final(self)@ == (LedgerView {
                mints: old(self)@.mints.insert(mint.key, mint),
                ..old(self)@
            }),
    {
        if self.mints.contains(&mint.key) {
            return Err(Error::Account(AccountError::AccountInUse));
        }
        self.mints.insert(mint.key, mint);
        assert(self@.tokens == old(self)@.tokens);
        assert(self@.escrows == old(self)@.escrows);
        Ok(())
    }

    /// Opens the holding account `account` at the address it names. An address that is taken is
    /// refused, and nothing changes.
    pub fn put_account(&mut self, account: TokenAccount) -> (r: Result<(), Error>)
        requires
            old(self).wf(),
        ensures
            final(self).wf(),
            r == (if old(self)@.tokens.dom().contains(account.key) {
                Err::<(), Error>(Error::Account(AccountError::AccountInUse))
            } else {
                Ok::<(), Error>(())
            }),
            r is Err ==> final(self)@ == old(self)@,
            r is Ok ==> final(self)@ == (LedgerView {
                tokens: old(self)@.tokens.insert(account.key, account),
                ..old(self)@
            }),
    {
        if self.tokens.contains(&account.key) {
            return Err(Error::Account(AccountError::AccountInUse));
        }
        self.tokens.insert(account.key, account);
        assert(self@.mints == old(self)@.mints);
        assert(self@.escrows == old(self)@.escrows);
        Ok(())
    }

    /// Enters the open escrow record `record` at `key`, as when records kept elsewhere are
    /// brought back. A record of a mint against itself is refused, and so is an address that
    /// is taken; nothing changes then.
    pub fn put_escrow(&mut self, key: Address, record: EscrowState) -> (r: Result<(), Error>)
        requires
            old(self).wf(),
        ensures
            final(self).wf(),
            r == (if record.mint_a == record.mint_b {
                Err::<(), Error>(Error::Escrow(EscrowError::SameMint))
            } else if old(self)@.escrows.dom().contains(key) {
                Err::<(), Error>(Error::Account(AccountError::AccountInUse))
            } else {
                Ok::<(), Error>(())
            }),
            r is Err ==> final(self)@ == old(self)@,
            r is Ok ==> final(self)@ == (LedgerView {
                escrows: old(self)@.escrows.insert(key, record),
                ..old(self)@
            }),
    {
        if record.mint_a == record.mint_b {
            return Err(Error::Escrow(EscrowError::SameMint));
        }
        if self.escrows.contains(&key) {
            return Err(Error::Account(AccountError::AccountInUse));
        }
        self.escrows.insert(key, record);
        assert(self@.mints == old(self)@.mints);
        assert(self@.tokens == old(self)@.tokens);
        Ok(())
    }

    /// The mint at `key`, if there is one.
    pub fn mint(&self, key: &Address) -> (r: Option<Mint>)
        requires
            self.wf(),
        ensures
            r == (if self@.mints.dom().contains(*key) {
                Some(self@.mints[*key])
            } else {
                None
            }),
    {
        self.mints.get(key)
    }

    /// The holding account at `key`, if there is one.
    pub fn token_account(&self, key: &Address) -> (r: Option<TokenAccount>)
        requires
            self.wf(),
        ensures
            r == (if self@.tokens.dom().contains(*key) {
                Some(self@.tokens[*key])
            } else {
                None
            }),
    {
        self.tokens.get(key)
    }

    /// The open escrow record at `key`, if there is one.
    pub fn escrow(&self, key: &Address) -> (r: Option<EscrowState>)
        requires
            self.wf(),
        ensures
            r == (if self@.escrows.dom().contains(*key) {
                Some(self@.escrows[*key])
            } else {
                None
            }),
    {
        self.escrows.get(key)
    }

    /// The open escrow record of `maker` under `seed`, with its address, if there is one.
    pub fn escrow_of(&self, maker: &Address, seed: u64) -> (r: Option<(Address, EscrowState)>)
        requires
            self.wf(),
        ensures
            match r {
                Some((key, record)) => {
                    &&& escrow_address(self@.program_id, *maker, seed) matches Some((found, _))
                    &&& found == key@
                    &&& self@.escrows.dom().contains(key)
                    &&& self@.escrows[key] == record
                },
                None => escrow_address(self@.program_id, *maker, seed) matches Some((found, _))
                    ==> forall|key: Address|
                    key@ == found ==> !self@.escrows.dom().contains(key),
            },
    {
        match find_escrow_address(&self.program_id, maker, seed) {
            None => None,
            Some((found, _)) => match self.escrows.get(&found) {
                None => {
                    assert forall|key: Address|
                        key@ == found@ implies !self@.escrows.dom().contains(key) by {
                        Address::lemma_view_injective(key, found);
                    }
                    None
                },
                Some(record) => Some((found, record)),
            },
        }
    }

    /// Loads the holding account of `owner` for `mint` from `key`.
    fn holding(&self, key: &Address, owner: &Address, mint: &Address, on_demand: bool) -> (r:
        Result<TokenAccount, Error>)
        requires
            self.wf(),
        ensures
            r == self@.holding(*key, *owner, *mint, on_demand),
    {
        match find_associated_address(
            &self.associated_token_program,
            owner,
            &self.token_program,
            mint,
        ) {
            None => {
                return Err(Error::Account(AccountError::AddressMismatch));
            },
            Some(found) => {
                proof {
                    if found@ == key@ {
                        Address::lemma_view_injective(found, *key);
                    }
                }
                if found != *key {
                    return Err(Error::Account(AccountError::AddressMismatch));
                }
            },
        }
        match self.tokens.get(key) {
            None => {
                if on_demand {
                    Ok(TokenAccount::new(*key, *mint, *owner))
                } else {
                    Err(Error::Account(AccountError::AccountNotFound))
                }
            },
            Some(account) => {
                if account.mint != *mint {
                    Err(Error::Account(AccountError::MintMismatch))
                } else if account.owner != *owner {
                    Err(Error::Account(AccountError::OwnerMismatch))
                } else {
                    Ok(account)
                }
            },
        }
    }

    /// Loads and checks the accounts of an opening, and finds the bump of the record's address.
    pub fn load_make(&self, accounts: &MakeAccounts, seed: u64) -> (r: Result<
        (Make, MakeBumps),
        Error,
    >)
        requires
            self.wf(),
        ensures
            r == self@.load_make(*accounts, seed),
            r matches Ok((_, bumps)) ==> signed_address(
                self@.program_id,
                accounts.maker.key,
                seed,
                bumps.escrow,
            ) == Some(accounts.escrow@),
    {
        if accounts.mint_a == accounts.mint_b {
            return Err(Error::Escrow(EscrowError::SameMint));
        }
        if !accounts.maker.is_signer {
            return Err(Error::Account(AccountError::MissingSignature));
        }
        if accounts.token_program != self.token_program {
            return Err(Error::Account(AccountError::InvalidProgram));
        }
        let (mint_a, mint_b) = match (
            self.mints.get(&accounts.mint_a),
            self.mints.get(&accounts.mint_b),
        ) {
            (Some(mint_a), Some(mint_b)) => (mint_a, mint_b),
            _ => {
                return Err(Error::Account(AccountError::AccountNotFound));
            },
        };
        let maker_ata_mint_a = match self.holding(
            &accounts.maker_ata_mint_a,
            &accounts.maker.key,
            &accounts.mint_a,
            false,
        ) {
            Err(e) => {
                return Err(e);
            },
            Ok(account) => account,
        };
        if maker_ata_mint_a.frozen {
            return Err(Error::Escrow(EscrowError::AccountFrozen));
        }
        let bump = match find_escrow_address(&self.program_id, &accounts.maker.key, seed) {
            None => {
                return Err(Error::Account(AccountError::SeedsMismatch));
            },
            Some((found, bump)) => {
                proof {
                    if found@ == accounts.escrow@ {
                        Address::lemma_view_injective(found, accounts.escrow);
                    }
                }
                if found != accounts.escrow {
                    return Err(Error::Account(AccountError::SeedsMismatch));
                }
                bump
            },
        };
        if self.escrows.contains(&accounts.escrow) {
            return Err(Error::Account(AccountError::AccountInUse));
        }
        match find_associated_address(
            &self.associated_token_program,
            &accounts.escrow,
            &self.token_program,
            &accounts.mint_a,
        ) {
            None => {
                return Err(Error::Account(AccountError::AddressMismatch));
            },
            Some(found) => {
                proof {
                    if found@ == accounts.vault@ {
                        Address::lemma_view_injective(found, accounts.vault);
                    }
                }
                if found != accounts.vault {
                    return Err(Error::Account(AccountError::AddressMismatch));
                }
            },
        }
        match self.tokens.get(&accounts.vault) {
            Some(existing) => {
                if existing.amount > 0 {
                    Err(Error::Escrow(EscrowError::VaultAlreadyFunded))
                } else {
                    Err(Error::Account(AccountError::AccountInUse))
                }
            },
            None => Ok(
                (
                    Make {
                        maker: accounts.maker,
                        mint_a,
                        mint_b,
                        maker_ata_mint_a,
                        escrow: EscrowAccount { key: accounts.escrow, state: None },
                        vault: TokenAccount::new(accounts.vault, accounts.mint_a, accounts.escrow),
                    },
                    MakeBumps { escrow: bump },
                ),
            ),
        }
    }

    /// Opens a trade: writes the record at `accounts.escrow`, creates the vault, and moves
    /// `amount` of mint A from the maker into it. The maker asks `receive_amount` of mint B in
    /// return. Either all of this happens, and the order for the deposit and its notice, stamped
    /// with `now`, are handed back, or the ledger is left as it was.
    pub fn make(
        &mut self,
        accounts: &MakeAccounts,
        seed: u64,
        receive_amount: u64,
        amount: u64,
        now: i64,
    ) -> (r: Result<Deposit, Error>)
        requires
            old(self).wf(),
        ensures
            final(self).wf(),
            match old(self)@.make(*accounts, seed, receive_amount, amount, now) {
                Ok((next, event)) => {
                    &&& r matches Ok(deposit)
                    &&& deposit.event == event
                    &&& old(self)@.deposits(*accounts, amount, deposit.order)
                    &&& final(self)@ == next
                },
                Err(e) => r matches Err(err) && err == e && final(self)@ == old(self)@,
            },
            r is Err ==> final(self)@ == old(self)@,
            accounts.mint_a == accounts.mint_b ==> (r matches Err(err) && err == Error::Escrow(
                EscrowError::SameMint,
            )),
            r is Ok ==> {
                &&& final(self)@.escrows.dom().contains(accounts.escrow)
                &&& final(self)@.escrows[accounts.escrow] == (EscrowState {
                    receive_amount,
                    maker: accounts.maker.key,
                    mint_a: accounts.mint_a,
                    mint_b: accounts.mint_b,
                    bump: final(self)@.escrows[accounts.escrow].bump,
                    seed,
                })
                &&& escrow_address(old(self)@.program_id, accounts.maker.key, seed) == Some(
                    (accounts.escrow@, final(self)@.escrows[accounts.escrow].bump),
                )
                &&& signed_address(
                    old(self)@.program_id,
                    accounts.maker.key,
                    seed,
                    final(self)@.escrows[accounts.escrow].bump,
                ) == Some(accounts.escrow@)
                &&& final(self)@.balance(accounts.vault) == amount
                &&& final(self)@.tokens[accounts.vault].owner == accounts.escrow
                &&& final(self)@.balance(accounts.maker_ata_mint_a) == old(self)@.balance(
                    accounts.maker_ata_mint_a,
                ) - amount
            },
    {
        proof {
            if old(self)@.make(*accounts, seed, receive_amount, amount, now) is Ok {
                lemma_make_opens_and_funds(
                    old(self)@,
                    *accounts,
                    seed,
                    receive_amount,
                    amount,
                    now,
                );
            }
        }
        let (mut ctx, bumps) = match self.load_make(accounts, seed) {
            Err(e) => {
                return Err(e);
            },
            Ok(loaded) => loaded,
        };
        match ctx.init_escrow_state(seed, receive_amount, &bumps) {
            Err(e) => {
                return Err(e);
            },
            Ok(()) => {},
        }
        let deposit = match ctx.deposit(amount, now) {
            Err(e) => {
                return Err(e);
            },
            Ok(deposit) => deposit,
        };
        let record = match ctx.escrow.state {
            None => {
                return Err(Error::Account(AccountError::AccountNotFound));
            },
            Some(record) => record,
        };
        self.tokens.insert(ctx.maker_ata_mint_a.key, ctx.maker_ata_mint_a);
        self.tokens.insert(ctx.vault.key, ctx.vault);
        self.escrows.insert(ctx.escrow.key, record);
        Ok(deposit)
    }

    /// Loads and checks the accounts of a settlement.
    pub fn load_take(&self, accounts: &TakeAccounts) -> (r: Result<Take, Error>)
        requires
            self.wf(),
        ensures
            r == self@.load_take(*accounts),
    {
        if !accounts.taker.is_signer {
            return Err(Error::Account(AccountError::MissingSignature));
        }
        let record = match self.escrows.get(&accounts.escrow) {
            None => {
                return Err(Error::Account(AccountError::AccountNotFound));
            },
            Some(record) => record,
        };
        match derive_escrow_address(&self.program_id, &record.maker, record.seed, record.bump) {
            None => {
                return Err(Error::Account(AccountError::SeedsMismatch));
            },
            Some(derived) => {
                proof {
                    if derived@ == accounts.escrow@ {
                        Address::lemma_view_injective(derived, accounts.escrow);
                    }
                }
                if derived != accounts.escrow {
                    return Err(Error::Account(AccountError::SeedsMismatch));
                }
            },
        }
        if record.maker != accounts.maker {
            return Err(Error::Account(AccountError::OwnerMismatch));
        }
        if record.mint_a != accounts.mint_a || record.mint_b != accounts.mint_b {
            return Err(Error::Account(AccountError::MintMismatch));
        }
        let (mint_a, mint_b) = match (
            self.mints.get(&accounts.mint_a),
            self.mints.get(&accounts.mint_b),
        ) {
            (Some(mint_a), Some(mint_b)) => (mint_a, mint_b),
            _ => {
                return Err(Error::Account(AccountError::AccountNotFound));
            },
        };
        if accounts.taker_ata_mint_a == accounts.taker_ata_mint_b || accounts.taker_ata_mint_a
            == accounts.maker_ata_mint_b || accounts.taker_ata_mint_a == accounts.vault
            || accounts.taker_ata_mint_b == accounts.maker_ata_mint_b || accounts.taker_ata_mint_b
            == accounts.vault || accounts.maker_ata_mint_b == accounts.vault {
            return Err(Error::Account(AccountError::DuplicateAccount));
        }
        let taker_ata_mint_a = match self.holding(
            &accounts.taker_ata_mint_a,
            &accounts.taker.key,
            &accounts.mint_a,
            true,
        ) {
            Err(e) => {
                return Err(e);
            },
            Ok(account) => account,
        };
        let taker_ata_mint_b = match self.holding(
            &accounts.taker_ata_mint_b,
            &accounts.taker.key,
            &accounts.mint_b,
            false,
        ) {
            Err(e) => {
                return Err(e);
            },
            Ok(account) => account,
        };
        let maker_ata_mint_b = match self.holding(
            &accounts.maker_ata_mint_b,
            &accounts.maker,
            &accounts.mint_b,
            true,
        ) {
            Err(e) => {
                return Err(e);
            },
            Ok(account) => account,
        };
        let vault = match self.holding(&accounts.vault, &accounts.escrow, &accounts.mint_a, false) {
            Err(Error::Account(AccountError::OwnerMismatch)) => {
                return Err(Error::Escrow(EscrowError::InvalidVaultAuthority));
            },
            Err(e) => {
                return Err(e);
            },
            Ok(account) => account,
        };
        Ok(
            Take {
                taker: accounts.taker,
                maker: accounts.maker,
                mint_a,
                mint_b,
                taker_ata_mint_a,
                taker_ata_mint_b,
                maker_ata_mint_b,
                escrow: EscrowAccount { key: accounts.escrow, state: Some(record) },
                vault: Some(vault),
                program_id: self.program_id,
            },
        )
    }

    /// Settles a trade: pays the maker the record's `receive_amount` of mint B from the taker,
    /// hands the taker all that the vault holds, and removes the vault and the record, whose
    /// storage cost goes to the taker and to the maker. Either all of this happens, and the
    /// orders for it are handed back, or the ledger is left as it was.
    pub fn take(&mut self, accounts: &TakeAccounts) -> (r: Result<Settlement, Error>)
        requires
            old(self).wf(),
        ensures
            final(self).wf(),
            match old(self)@.take(*accounts) {
                Ok(next) => {
                    &&& r matches Ok(settlement)
                    &&& old(self)@.settles(*accounts, settlement)
                    &&& final(self)@ == next
                },
                Err(e) => r matches Err(err) && err == e && final(self)@ == old(self)@,
            },
            r is Err ==> final(self)@ == old(self)@,
            r is Ok ==> {
                &&& final(self)@.balance(accounts.maker_ata_mint_b) == old(self)@.balance(
                    accounts.maker_ata_mint_b,
                ) + old(self)@.escrows[accounts.escrow].receive_amount
                &&& final(self)@.balance(accounts.taker_ata_mint_b) == old(self)@.balance(
                    accounts.taker_ata_mint_b,
                ) - old(self)@.escrows[accounts.escrow].receive_amount
                &&& final(self)@.balance(accounts.taker_ata_mint_a) == old(self)@.balance(
                    accounts.taker_ata_mint_a,
                ) + old(self)@.balance(accounts.vault)
                &&& !final(self)@.tokens.dom().contains(accounts.vault)
                &&& !final(self)@.escrows.dom().contains(accounts.escrow)
            },
    {
        proof {
            if old(self)@.take(*accounts) is Ok {
                lemma_take_pays_exact_amount(old(self)@, *accounts);
                lemma_take_releases_whole_vault(old(self)@, *accounts);
            }
        }
        let mut ctx = match self.load_take(accounts) {
            Err(e) => {
                return Err(e);
            },
            Ok(loaded) => loaded,
        };
        let payment = match ctx.transfer() {
            Err(e) => {
                return Err(e);
            },
            Ok(order) => order,
        };
        let release = match ctx.withdraw() {
            Err(e) => {
                return Err(e);
            },
            Ok(order) => order,
        };
        let teardown = match ctx.close() {
            Err(e) => {
                return Err(e);
            },
            Ok(teardown) => teardown,
        };
        self.tokens.insert(ctx.taker_ata_mint_a.key, ctx.taker_ata_mint_a);
        self.tokens.insert(ctx.taker_ata_mint_b.key, ctx.taker_ata_mint_b);
        self.tokens.insert(ctx.maker_ata_mint_b.key, ctx.maker_ata_mint_b);
        self.tokens.remove(&accounts.vault);
        self.escrows.remove(&ctx.escrow.key);
        Ok(Settlement { payment, release, teardown })
    }
}

} // verus!
