//! What holds of every opening and every settlement, whatever the ledger and the accounts.

use crate::address::{escrow_address, signed_address, Address};
use crate::errors::{AccountError, Error, EscrowError};
use crate::events::DepositEvent;
use crate::ledger::{LedgerView, MakeAccounts, TakeAccounts};
use crate::state::EscrowState;
use vstd::prelude::*;

verus! {

/// An opening that names one mint for both sides is refused with `SameMint`, whatever else
/// it is handed.
pub proof fn lemma_same_mint_is_refused(
    ledger: LedgerView,
    accounts: MakeAccounts,
    seed: u64,
    receive_amount: u64,
    amount: u64,
    now: i64,
)
    requires
        accounts.mint_a == accounts.mint_b,
    ensures
        ledger.make(accounts, seed, receive_amount, amount, now) == Err::<
            (LedgerView, DepositEvent),
            Error,
        >(Error::Escrow(EscrowError::SameMint)),
{
}

/// An opening whose accounts are in order, but whose maker holds less than the amount to
/// deposit, is refused with `InsufficientBalance`.
pub proof fn lemma_insufficient_balance_is_refused(
    ledger: LedgerView,
    accounts: MakeAccounts,
    seed: u64,
    receive_amount: u64,
    amount: u64,
    now: i64,
)
    requires
        ledger.wf(),
        ledger.load_make(accounts, seed) is Ok,
        ledger.balance(accounts.maker_ata_mint_a) < amount,
    ensures
        ledger.make(accounts, seed, receive_amount, amount, now) == Err::<
            (LedgerView, DepositEvent),
            Error,
        >(Error::Escrow(EscrowError::InsufficientBalance)),
{
}

/// When an opening succeeds: exactly when its accounts are in order and the maker holds the
/// amount to deposit.
pub proof fn lemma_make_succeeds_exactly_when(
    ledger: LedgerView,
    accounts: MakeAccounts,
    seed: u64,
    receive_amount: u64,
    amount: u64,
    now: i64,
)
    requires
        ledger.wf(),
    ensures
        ledger.make(accounts, seed, receive_amount, amount, now) is Ok <==> {
            &&& ledger.load_make(accounts, seed) is Ok
            &&& amount <= ledger.balance(accounts.maker_ata_mint_a)
        },
{
}

/// A successful opening leaves a record of the terms at the address derived from the maker
/// and the seed, and a vault, held by that record, with exactly the amount deposited; the
/// maker holds that much less, and the event reports the maker, the amount and the time.
pub proof fn lemma_make_opens_and_funds(
    ledger: LedgerView,
    accounts: MakeAccounts,
    seed: u64,
    receive_amount: u64,
    amount: u64,
    now: i64,
)
    requires
        ledger.wf(),
        ledger.make(accounts, seed, receive_amount, amount, now) is Ok,
    ensures
        ({
            let (next, event) = ledger.make(accounts, seed, receive_amount, amount, now).unwrap();
            &&& next.wf()
            &&& !ledger.escrows.dom().contains(accounts.escrow)
            &&& !ledger.tokens.dom().contains(accounts.vault)
            &&& next.escrows.dom().contains(accounts.escrow)
            &&& next.escrows[accounts.escrow].receive_amount == receive_amount
            &&& next.escrows[accounts.escrow].maker == accounts.maker.key
            &&& next.escrows[accounts.escrow].mint_a == accounts.mint_a
            &&& next.escrows[accounts.escrow].mint_b == accounts.mint_b
            &&& next.escrows[accounts.escrow].seed == seed
            &&& escrow_address(ledger.program_id, accounts.maker.key, seed) == Some(
                (accounts.escrow@, next.escrows[accounts.escrow].bump),
            )
            &&& next.tokens.dom().contains(accounts.vault)
            &&& next.tokens[accounts.vault].owner == accounts.escrow
            &&& next.tokens[accounts.vault].mint == accounts.mint_a
            &&& next.balance(accounts.vault) == amount
            &&& next.balance(accounts.maker_ata_mint_a) == ledger.balance(accounts.maker_ata_mint_a)
                - amount
            &&& event == (DepositEvent { maker: accounts.maker.key, amount, timestamp: now })
        }),
{
}

/// When a settlement succeeds: exactly when its accounts are in order, none of the four
/// holding accounts is frozen, the taker holds the price, and neither receiving account would
/// pass the largest amount an account can hold.
pub proof fn lemma_take_succeeds_exactly_when(ledger: LedgerView, accounts: TakeAccounts)
    requires
        ledger.wf(),
    ensures
        ledger.take(accounts) is Ok <==> {
            &&& ledger.load_take(accounts) is Ok
            &&& !ledger.tokens[accounts.taker_ata_mint_b].frozen
            &&& !ledger.tokens[accounts.vault].frozen
            &&& ledger.tokens.dom().contains(accounts.maker_ata_mint_b)
                ==> !ledger.tokens[accounts.maker_ata_mint_b].frozen
            &&& ledger.tokens.dom().contains(accounts.taker_ata_mint_a)
                ==> !ledger.tokens[accounts.taker_ata_mint_a].frozen
            &&& ledger.escrows[accounts.escrow].receive_amount <= ledger.balance(
                accounts.taker_ata_mint_b,
            )
            &&& ledger.balance(accounts.maker_ata_mint_b)
                + ledger.escrows[accounts.escrow].receive_amount <= u64::MAX
            &&& ledger.balance(accounts.taker_ata_mint_a) + ledger.balance(accounts.vault)
                <= u64::MAX
        },
{
}

/// The accounts with which `taker` settles the trade that `made` opened.
pub open spec fn settles(made: MakeAccounts, accounts: TakeAccounts) -> bool {
    &&& accounts.maker == made.maker.key
    &&& accounts.mint_a == made.mint_a
    &&& accounts.mint_b == made.mint_b
    &&& accounts.escrow == made.escrow
    &&& accounts.vault == made.vault
}

/// A trade that was opened with `amount` and is settled before anything else touches the
/// ledger hands the taker exactly `amount` of mint A and the maker exactly `receive_amount`
/// of mint B.
pub proof fn lemma_take_after_make(
    ledger: LedgerView,
    made: MakeAccounts,
    seed: u64,
    receive_amount: u64,
    amount: u64,
    now: i64,
    accounts: TakeAccounts,
)
    requires
        ledger.wf(),
        ledger.make(made, seed, receive_amount, amount, now) is Ok,
        settles(made, accounts),
        ledger.make(made, seed, receive_amount, amount, now).unwrap().0.take(accounts) is Ok,
    ensures
        ({
            let opened = ledger.make(made, seed, receive_amount, amount, now).unwrap().0;
            let settled = opened.take(accounts).unwrap();
            &&& settled.balance(accounts.taker_ata_mint_a) == ledger.balance(
                accounts.taker_ata_mint_a,
            ) + amount
            &&& settled.balance(accounts.maker_ata_mint_b) == ledger.balance(
                accounts.maker_ata_mint_b,
            ) + receive_amount
            &&& settled.balance(made.maker_ata_mint_a) == ledger.balance(made.maker_ata_mint_a)
                - amount
            &&& settled.escrows == ledger.escrows
            &&& !settled.tokens.dom().contains(made.vault)
        }),
{
    let opened = ledger.make(made, seed, receive_amount, amount, now).unwrap().0;
    lemma_make_opens_and_funds(ledger, made, seed, receive_amount, amount, now);
    if accounts.taker_ata_mint_b@ == accounts.maker_ata_mint_b@ {
        Address::lemma_view_injective(accounts.taker_ata_mint_b, accounts.maker_ata_mint_b);
    }
    lemma_take_pays_exact_amount(opened, accounts);
    lemma_take_releases_whole_vault(opened, accounts);
    let settled = opened.take(accounts).unwrap();
    assert(settled.escrows =~= ledger.escrows);
}

/// A successful settlement pays the maker exactly the record's `receive_amount` of mint B,
/// however much more the taker holds, and the taker holds exactly that much less.
pub proof fn lemma_take_pays_exact_amount(ledger: LedgerView, accounts: TakeAccounts)
    requires
        ledger.wf(),
        ledger.take(accounts) is Ok,
    ensures
        ({
            let next = ledger.take(accounts).unwrap();
            let price = ledger.escrows[accounts.escrow].receive_amount;
            &&& next.balance(accounts.maker_ata_mint_b) == ledger.balance(
                accounts.maker_ata_mint_b,
            ) + price
            &&& next.balance(accounts.taker_ata_mint_b) == ledger.balance(
                accounts.taker_ata_mint_b,
            ) - price
        }),
{
}

/// A successful settlement hands the taker exactly what the vault held when the settlement
/// began, and leaves neither the vault nor the record.
pub proof fn lemma_take_releases_whole_vault(ledger: LedgerView, accounts: TakeAccounts)
    requires
        ledger.wf(),
        ledger.take(accounts) is Ok,
    ensures
        ({
            let next = ledger.take(accounts).unwrap();
            &&& ledger.tokens.dom().contains(accounts.vault)
            &&& next.balance(accounts.taker_ata_mint_a) == ledger.balance(
                accounts.taker_ata_mint_a,
            ) + ledger.balance(accounts.vault)
            &&& !next.tokens.dom().contains(accounts.vault)
            &&& !next.escrows.dom().contains(accounts.escrow)
            &&& next.wf()
        }),
{
}

/// An escrow is settled at most once: after a successful settlement, a further one against the
/// same record fails, whoever asks for it, because the record is gone.
pub proof fn lemma_no_double_settlement(
    ledger: LedgerView,
    first: TakeAccounts,
    second: TakeAccounts,
)
    requires
        ledger.wf(),
        ledger.take(first) is Ok,
        second.escrow == first.escrow,
    ensures
        ({
            let next = ledger.take(first).unwrap();
            next.take(second) == Err::<LedgerView, Error>(
                Error::Account(
                    if second.taker.is_signer {
                        AccountError::AccountNotFound
                    } else {
                        AccountError::MissingSignature
                    },
                ),
            )
        }),
{
}

/// A maker cannot settle its own trade: the account that pays would be the account that is
/// paid.
pub proof fn lemma_maker_cannot_take(ledger: LedgerView, accounts: TakeAccounts)
    requires
        accounts.taker.key == accounts.maker,
    ensures
        ledger.take(accounts) is Err,
{
    if accounts.taker_ata_mint_b@ == accounts.maker_ata_mint_b@ {
        Address::lemma_view_injective(accounts.taker_ata_mint_b, accounts.maker_ata_mint_b);
    }
}

/// A record is never changed while it is open: an opening or a settlement that leaves a
/// record in place leaves it as it was.
pub proof fn lemma_open_record_is_immutable(
    ledger: LedgerView,
    made: MakeAccounts,
    seed: u64,
    receive_amount: u64,
    amount: u64,
    now: i64,
    accounts: TakeAccounts,
    record: Address,
)
    requires
        ledger.wf(),
        ledger.escrows.dom().contains(record),
    ensures
        ledger.make(made, seed, receive_amount, amount, now) matches Ok((next, _))
            ==> next.escrows.dom().contains(record) && next.escrows[record]
            == ledger.escrows[record],
        ledger.take(accounts) matches Ok(next) ==> (next.escrows.dom().contains(record)
            <==> record != accounts.escrow) && (record != accounts.escrow ==> next.escrows[record]
            == ledger.escrows[record]),
{
}

/// Funds leave an account only on the word of who holds it: an opening takes from no account
/// but the one of the maker that signed, and a settlement from none but the one of the taker
/// that signed and the vault, which the record holds for which the program signs.
pub proof fn lemma_only_the_holder_pays(
    ledger: LedgerView,
    made: MakeAccounts,
    seed: u64,
    receive_amount: u64,
    amount: u64,
    now: i64,
    accounts: TakeAccounts,
    account: Address,
)
    requires
        ledger.wf(),
    ensures
        ledger.make(made, seed, receive_amount, amount, now) matches Ok((next, _)) && next.balance(
            account,
        ) < ledger.balance(account) ==> {
            &&& account == made.maker_ata_mint_a
            &&& made.maker.is_signer
            &&& ledger.tokens[account].owner == made.maker.key
        },
        ledger.take(accounts) matches Ok(next) && next.balance(account) < ledger.balance(account)
            ==> {
            ||| {
                &&& account == accounts.taker_ata_mint_b
                &&& accounts.taker.is_signer
                &&& ledger.tokens[account].owner == accounts.taker.key
            }
            ||| {
                &&& account == accounts.vault
                &&& ledger.tokens[account].owner == accounts.escrow
                &&& signed_address(
                    ledger.program_id,
                    ledger.escrows[accounts.escrow].maker,
                    ledger.escrows[accounts.escrow].seed,
                    ledger.escrows[accounts.escrow].bump,
                ) == Some(accounts.escrow@)
            }
        },
{
}

/// An account changes only in an operation of its holder: an opening by another maker leaves
/// it as it was, and so does a settlement between other parties of which it is not the vault.
/// So while a trade is open, nothing but its own settlement changes its vault, unless a party
/// signs as the record itself.
pub proof fn lemma_account_is_left_alone_by_others(
    ledger: LedgerView,
    made: MakeAccounts,
    seed: u64,
    receive_amount: u64,
    amount: u64,
    now: i64,
    accounts: TakeAccounts,
    account: Address,
)
    requires
        ledger.wf(),
        ledger.tokens.dom().contains(account),
    ensures
        ledger.make(made, seed, receive_amount, amount, now) matches Ok((next, _)) ==> {
            made.maker.key != ledger.tokens[account].owner ==> {
                &&& next.tokens.dom().contains(account)
                &&& next.tokens[account] == ledger.tokens[account]
            }
        },
        ledger.take(accounts) matches Ok(next) ==> {
            accounts.vault != account && accounts.taker.key != ledger.tokens[account].owner
                && accounts.maker != ledger.tokens[account].owner ==> {
                &&& next.tokens.dom().contains(account)
                &&& next.tokens[account] == ledger.tokens[account]
            }
        },
{
}

/// A settlement changes no holding account but the four it is handed, and no record but its
/// own.
pub proof fn lemma_take_touches_only_its_accounts(
    ledger: LedgerView,
    accounts: TakeAccounts,
    other: Address,
)
    requires
        ledger.wf(),
        ledger.take(accounts) is Ok,
    ensures
        ({
            let next = ledger.take(accounts).unwrap();
            &&& other != accounts.taker_ata_mint_a && other != accounts.taker_ata_mint_b && other
                != accounts.maker_ata_mint_b && other != accounts.vault ==> {
                &&& next.tokens.dom().contains(other) == ledger.tokens.dom().contains(other)
                &&& ledger.tokens.dom().contains(other) ==> next.tokens[other]
                    == ledger.tokens[other]
            }
            &&& other != accounts.escrow ==> {
                &&& next.escrows.dom().contains(other) == ledger.escrows.dom().contains(other)
                &&& ledger.escrows.dom().contains(other) ==> next.escrows[other]
                    == ledger.escrows[other]
            }
        }),
{
}

/// An opening changes no holding account but the maker's and the new vault, and no record but
/// the new one.
pub proof fn lemma_make_touches_only_its_accounts(
    ledger: LedgerView,
    accounts: MakeAccounts,
    seed: u64,
    receive_amount: u64,
    amount: u64,
    now: i64,
    other: Address,
)
    requires
        ledger.wf(),
        ledger.make(accounts, seed, receive_amount, amount, now) is Ok,
    ensures
        ({
            let (next, _) = ledger.make(accounts, seed, receive_amount, amount, now).unwrap();
            &&& other != accounts.maker_ata_mint_a && other != accounts.vault ==> {
                &&& next.tokens.dom().contains(other) == ledger.tokens.dom().contains(other)
                &&& ledger.tokens.dom().contains(other) ==> next.tokens[other]
                    == ledger.tokens[other]
            }
            &&& other != accounts.escrow ==> {
                &&& next.escrows.dom().contains(other) == ledger.escrows.dom().contains(other)
                &&& ledger.escrows.dom().contains(other) ==> next.escrows[other]
                    == ledger.escrows[other]
            }
        }),
{
}

} // verus!
