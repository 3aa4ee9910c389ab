use anchor_escrow::address::{find_associated_address, find_escrow_address};
use anchor_escrow::{
    AccountError, Address, Error, EscrowError, EscrowState, Ledger, MakeAccounts, Mint, Signer,
    TakeAccounts, TokenAccount, TokenError,
};

fn ek(n: u8) -> Address {
    Address::new([n; 32])
}

fn e_token_program() -> Address {
    Address::new(anchor_spl::token::ID.to_bytes())
}

fn e_associated_program() -> Address {
    Address::new(anchor_spl::associated_token::ID.to_bytes())
}

fn e_ata(owner: &Address, mint: &Address) -> Address {
    find_associated_address(&e_associated_program(), owner, &e_token_program(), mint).unwrap()
}

fn e_account(owner: Address, mint: Address, amount: u64) -> TokenAccount {
    TokenAccount { key: e_ata(&owner, &mint), mint, owner, amount, frozen: false }
}

fn e_escrow(maker: &Address, seed: u64) -> (Address, u8) {
    find_escrow_address(&ek(9), maker, seed).unwrap()
}

const MAKER: u8 = 1;
const TAKER: u8 = 2;
const MINT_A: u8 = 3;
const MINT_B: u8 = 4;

/// A ledger that knows the two mints and holds no account.
fn e_empty() -> Ledger {
    let mut ledger = Ledger::new(ek(9), e_token_program(), e_associated_program());
    ledger.put_mint(Mint { key: ek(MINT_A), decimals: 6 }).unwrap();
    ledger.put_mint(Mint { key: ek(MINT_B), decimals: 9 }).unwrap();
    ledger
}

/// A ledger with a maker that holds 1000 of mint A and a taker that holds 500 of mint B.
fn e_ledger() -> Ledger {
    let mut ledger = e_empty();
    ledger.put_account(e_account(ek(MAKER), ek(MINT_A), 1_000)).unwrap();
    ledger.put_account(e_account(ek(TAKER), ek(MINT_B), 500)).unwrap();
    ledger
}

fn e_make(seed: u64) -> MakeAccounts {
    let (escrow, _) = e_escrow(&ek(MAKER), seed);
    MakeAccounts {
        maker: Signer { key: ek(MAKER), is_signer: true },
        mint_a: ek(MINT_A),
        mint_b: ek(MINT_B),
        maker_ata_mint_a: e_ata(&ek(MAKER), &ek(MINT_A)),
        escrow,
        vault: e_ata(&escrow, &ek(MINT_A)),
        token_program: e_token_program(),
    }
}

fn e_take(seed: u64) -> TakeAccounts {
    let (escrow, _) = e_escrow(&ek(MAKER), seed);
    TakeAccounts {
        taker: Signer { key: ek(TAKER), is_signer: true },
        maker: ek(MAKER),
        mint_a: ek(MINT_A),
        mint_b: ek(MINT_B),
        taker_ata_mint_a: e_ata(&ek(TAKER), &ek(MINT_A)),
        taker_ata_mint_b: e_ata(&ek(TAKER), &ek(MINT_B)),
        maker_ata_mint_b: e_ata(&ek(MAKER), &ek(MINT_B)),
        escrow,
        vault: e_ata(&escrow, &ek(MINT_A)),
    }
}

/// A ledger on which the escrow of seed 7 is open: 1000 of mint A for 500 of mint B.
fn e_open() -> Ledger {
    let mut ledger = e_ledger();
    ledger.make(&e_make(7), 7, 500, 1_000, 0).unwrap();
    ledger
}

fn e_unchanged_after_make(ledger: &Ledger, accounts: &MakeAccounts) {
    assert_eq!(ledger.escrow(&accounts.escrow), None);
    assert_eq!(ledger.token_account(&e_ata(&ek(MAKER), &ek(MINT_A))).unwrap().amount, 1_000);
}

fn e_unchanged_after_take(ledger: &Ledger) {
    let take = e_take(7);
    assert_eq!(ledger.token_account(&take.vault).unwrap().amount, 1_000);
    assert!(ledger.escrow(&take.escrow).is_some());
    assert_eq!(ledger.token_account(&take.maker_ata_mint_b), None);
    assert_eq!(ledger.token_account(&take.taker_ata_mint_a), None);
}

#[test]
fn make_needs_the_makers_signature() {
    let mut ledger = e_ledger();
    let mut accounts = e_make(7);
    accounts.maker.is_signer = false;
    assert_eq!(
        ledger.make(&accounts, 7, 500, 1_000, 0),
        Err(Error::Account(AccountError::MissingSignature))
    );
    e_unchanged_after_make(&ledger, &accounts);
}

#[test]
fn make_through_another_token_program_fails() {
    let mut ledger = e_ledger();
    let mut accounts = e_make(7);
    accounts.token_program = Address::new(anchor_spl::token_2022::ID.to_bytes());
    assert_eq!(
        ledger.make(&accounts, 7, 500, 1_000, 0),
        Err(Error::Account(AccountError::InvalidProgram))
    );
    e_unchanged_after_make(&ledger, &accounts);
}

#[test]
fn make_of_a_mint_that_does_not_exist_fails() {
    let mut ledger = Ledger::new(ek(9), e_token_program(), e_associated_program());
    ledger.put_mint(Mint { key: ek(MINT_A), decimals: 6 }).unwrap();
    ledger.put_account(e_account(ek(MAKER), ek(MINT_A), 1_000)).unwrap();
    assert_eq!(
        ledger.make(&e_make(7), 7, 500, 1_000, 0),
        Err(Error::Account(AccountError::AccountNotFound))
    );
    assert_eq!(ledger.mint(&ek(MINT_B)), None);
    assert_eq!(ledger.mint(&ek(MINT_A)), Some(Mint { key: ek(MINT_A), decimals: 6 }));
}

#[test]
fn put_mint_refuses_a_taken_address() {
    let mut ledger = e_empty();
    assert_eq!(
        ledger.put_mint(Mint { key: ek(MINT_A), decimals: 2 }),
        Err(Error::Account(AccountError::AccountInUse))
    );
    assert_eq!(ledger.mint(&ek(MINT_A)), Some(Mint { key: ek(MINT_A), decimals: 6 }));
}

#[test]
fn make_from_a_missing_account_fails() {
    let mut ledger = e_empty();
    assert_eq!(
        ledger.make(&e_make(7), 7, 500, 0, 0),
        Err(Error::Account(AccountError::AccountNotFound))
    );
}

#[test]
fn make_from_an_account_at_another_address_fails() {
    let mut ledger = e_ledger();
    let mut accounts = e_make(7);
    accounts.maker_ata_mint_a = ek(200);
    assert_eq!(
        ledger.make(&accounts, 7, 500, 1_000, 0),
        Err(Error::Account(AccountError::AddressMismatch))
    );
    e_unchanged_after_make(&ledger, &accounts);
}

#[test]
fn make_from_an_account_of_another_mint_fails() {
    let mut ledger = e_empty();
    let mut odd = e_account(ek(MAKER), ek(MINT_A), 1_000);
    odd.mint = ek(MINT_B);
    ledger.put_account(odd).unwrap();
    assert_eq!(
        ledger.make(&e_make(7), 7, 500, 1_000, 0),
        Err(Error::Account(AccountError::MintMismatch))
    );
}

#[test]
fn make_from_an_account_of_another_owner_fails() {
    let mut ledger = e_empty();
    let mut odd = e_account(ek(MAKER), ek(MINT_A), 1_000);
    odd.owner = ek(TAKER);
    ledger.put_account(odd).unwrap();
    assert_eq!(
        ledger.make(&e_make(7), 7, 500, 1_000, 0),
        Err(Error::Account(AccountError::OwnerMismatch))
    );
}

#[test]
fn make_from_a_frozen_account_fails() {
    let mut ledger = e_empty();
    let mut frozen = e_account(ek(MAKER), ek(MINT_A), 1_000);
    frozen.frozen = true;
    ledger.put_account(frozen).unwrap();
    let accounts = e_make(7);
    assert_eq!(
        ledger.make(&accounts, 7, 500, 1_000, 0),
        Err(Error::Escrow(EscrowError::AccountFrozen))
    );
    assert_eq!(ledger.escrow(&accounts.escrow), None);
    assert_eq!(ledger.token_account(&accounts.vault), None);
    assert_eq!(ledger.token_account(&frozen.key), Some(frozen));
}

#[test]
fn make_at_an_address_of_another_seed_fails() {
    let mut ledger = e_ledger();
    let accounts = e_make(7);
    assert_eq!(
        ledger.make(&accounts, 8, 500, 1_000, 0),
        Err(Error::Account(AccountError::SeedsMismatch))
    );
    e_unchanged_after_make(&ledger, &accounts);
}

#[test]
fn make_twice_under_one_seed_fails() {
    let mut ledger = e_open();
    assert_eq!(
        ledger.make(&e_make(7), 7, 1, 0, 0),
        Err(Error::Account(AccountError::AccountInUse))
    );
    assert_eq!(ledger.escrow(&e_make(7).escrow).unwrap().receive_amount, 500);
    assert_eq!(ledger.token_account(&e_make(7).vault).unwrap().amount, 1_000);
}

#[test]
fn make_with_a_vault_at_another_address_fails() {
    let mut ledger = e_ledger();
    let mut accounts = e_make(7);
    accounts.vault = e_ata(&accounts.escrow, &ek(MINT_B));
    assert_eq!(
        ledger.make(&accounts, 7, 500, 1_000, 0),
        Err(Error::Account(AccountError::AddressMismatch))
    );
    e_unchanged_after_make(&ledger, &accounts);
}

#[test]
fn make_into_a_funded_vault_fails() {
    let mut ledger = e_ledger();
    let accounts = e_make(7);
    let squatter = e_account(accounts.escrow, ek(MINT_A), 1);
    ledger.put_account(squatter).unwrap();
    assert_eq!(
        ledger.make(&accounts, 7, 500, 1_000, 0),
        Err(Error::Escrow(EscrowError::VaultAlreadyFunded))
    );
    e_unchanged_after_make(&ledger, &accounts);
    assert_eq!(ledger.token_account(&accounts.vault), Some(squatter));
}

#[test]
fn make_into_an_existing_empty_vault_fails() {
    let mut ledger = e_ledger();
    let accounts = e_make(7);
    ledger.put_account(e_account(accounts.escrow, ek(MINT_A), 0)).unwrap();
    assert_eq!(
        ledger.make(&accounts, 7, 500, 1_000, 0),
        Err(Error::Account(AccountError::AccountInUse))
    );
    e_unchanged_after_make(&ledger, &accounts);
}

#[test]
fn take_needs_the_takers_signature() {
    let mut ledger = e_open();
    let mut accounts = e_take(7);
    accounts.taker.is_signer = false;
    assert_eq!(ledger.take(&accounts), Err(Error::Account(AccountError::MissingSignature)));
    e_unchanged_after_take(&ledger);
}

#[test]
fn take_of_an_escrow_that_was_never_opened_fails() {
    let mut ledger = e_open();
    assert_eq!(ledger.take(&e_take(8)), Err(Error::Account(AccountError::AccountNotFound)));
    e_unchanged_after_take(&ledger);
}

#[test]
fn take_of_a_record_at_an_address_not_derived_from_it_fails() {
    let mut ledger = e_ledger();
    let (escrow, bump) = e_escrow(&ek(MAKER), 7);
    let record = EscrowState {
        receive_amount: 500,
        maker: ek(MAKER),
        mint_a: ek(MINT_A),
        mint_b: ek(MINT_B),
        bump,
        seed: 8,
    };
    assert_eq!(ledger.put_escrow(escrow, record), Ok(()));
    ledger.put_account(e_account(escrow, ek(MINT_A), 1_000)).unwrap();
    assert_eq!(ledger.take(&e_take(7)), Err(Error::Account(AccountError::SeedsMismatch)));
    assert_eq!(ledger.escrow(&escrow), Some(record));
}

#[test]
fn take_with_another_maker_fails() {
    let mut ledger = e_open();
    let mut accounts = e_take(7);
    accounts.maker = ek(50);
    accounts.maker_ata_mint_b = e_ata(&ek(50), &ek(MINT_B));
    assert_eq!(ledger.take(&accounts), Err(Error::Account(AccountError::OwnerMismatch)));
    e_unchanged_after_take(&ledger);
}

#[test]
fn take_with_another_mint_fails() {
    let mut ledger = e_open();
    let mut accounts = e_take(7);
    accounts.mint_b = ek(60);
    accounts.taker_ata_mint_b = e_ata(&ek(TAKER), &ek(60));
    accounts.maker_ata_mint_b = e_ata(&ek(MAKER), &ek(60));
    assert_eq!(ledger.take(&accounts), Err(Error::Account(AccountError::MintMismatch)));
    let mut swapped = e_take(7);
    swapped.mint_a = ek(MINT_B);
    swapped.mint_b = ek(MINT_A);
    assert_eq!(ledger.take(&swapped), Err(Error::Account(AccountError::MintMismatch)));
    e_unchanged_after_take(&ledger);
}

#[test]
fn take_with_one_account_in_two_roles_fails() {
    let mut ledger = e_open();
    let mut accounts = e_take(7);
    accounts.taker_ata_mint_a = accounts.vault;
    assert_eq!(ledger.take(&accounts), Err(Error::Account(AccountError::DuplicateAccount)));
    let mut paid_to_self = e_take(7);
    paid_to_self.maker_ata_mint_b = paid_to_self.taker_ata_mint_b;
    assert_eq!(ledger.take(&paid_to_self), Err(Error::Account(AccountError::DuplicateAccount)));
    e_unchanged_after_take(&ledger);
}

#[test]
fn maker_cannot_take_its_own_escrow() {
    let mut ledger = e_open();
    ledger.put_account(e_account(ek(MAKER), ek(MINT_B), 500)).unwrap();
    let mut accounts = e_take(7);
    accounts.taker = Signer { key: ek(MAKER), is_signer: true };
    accounts.taker_ata_mint_a = e_ata(&ek(MAKER), &ek(MINT_A));
    accounts.taker_ata_mint_b = e_ata(&ek(MAKER), &ek(MINT_B));
    assert_eq!(ledger.take(&accounts), Err(Error::Account(AccountError::DuplicateAccount)));
    assert_eq!(ledger.token_account(&accounts.vault).unwrap().amount, 1_000);
    assert_eq!(ledger.token_account(&accounts.maker_ata_mint_b).unwrap().amount, 500);
}

#[test]
fn take_with_a_substituted_vault_fails() {
    let mut ledger = e_open();
    let decoy = e_account(ek(70), ek(MINT_A), 2_000);
    let mut accounts = e_take(7);
    ledger.put_account(decoy).unwrap();
    accounts.vault = decoy.key;
    assert_eq!(ledger.take(&accounts), Err(Error::Account(AccountError::AddressMismatch)));
    assert_eq!(ledger.token_account(&e_take(7).vault).unwrap().amount, 1_000);
    assert!(ledger.escrow(&accounts.escrow).is_some());
}

#[test]
fn take_of_a_vault_held_by_another_authority_fails() {
    let mut ledger = e_ledger();
    let (escrow, bump) = e_escrow(&ek(MAKER), 7);
    let record = EscrowState {
        receive_amount: 500,
        maker: ek(MAKER),
        mint_a: ek(MINT_A),
        mint_b: ek(MINT_B),
        bump,
        seed: 7,
    };
    ledger.put_escrow(escrow, record).unwrap();
    let mut vault = e_account(escrow, ek(MINT_A), 1_000);
    vault.owner = ek(MAKER);
    ledger.put_account(vault).unwrap();
    assert_eq!(ledger.take(&e_take(7)), Err(Error::Escrow(EscrowError::InvalidVaultAuthority)));
    assert_eq!(ledger.token_account(&vault.key), Some(vault));
    assert_eq!(ledger.escrow(&escrow), Some(record));
    assert_eq!(ledger.token_account(&e_take(7).taker_ata_mint_b).unwrap().amount, 500);
}

#[test]
fn take_of_a_record_without_a_vault_fails() {
    let mut ledger = e_ledger();
    let (escrow, bump) = e_escrow(&ek(MAKER), 7);
    let record = EscrowState {
        receive_amount: 500,
        maker: ek(MAKER),
        mint_a: ek(MINT_A),
        mint_b: ek(MINT_B),
        bump,
        seed: 7,
    };
    ledger.put_escrow(escrow, record).unwrap();
    assert_eq!(ledger.take(&e_take(7)), Err(Error::Account(AccountError::AccountNotFound)));
}

#[test]
fn take_by_a_taker_without_an_account_of_mint_b_fails() {
    let mut ledger = e_empty();
    ledger.put_account(e_account(ek(MAKER), ek(MINT_A), 1_000)).unwrap();
    ledger.make(&e_make(7), 7, 500, 1_000, 0).unwrap();
    assert_eq!(ledger.take(&e_take(7)), Err(Error::Account(AccountError::AccountNotFound)));
}

#[test]
fn take_by_a_taker_that_cannot_pay_fails() {
    let mut ledger = e_ledger();
    ledger.make(&e_make(7), 7, 501, 1_000, 0).unwrap();
    assert_eq!(ledger.take(&e_take(7)), Err(Error::Token(TokenError::InsufficientFunds)));
    e_unchanged_after_take(&ledger);
    assert_eq!(ledger.token_account(&e_take(7).taker_ata_mint_b).unwrap().amount, 500);
}

#[test]
fn take_from_a_frozen_account_fails() {
    let mut ledger = e_empty();
    ledger.put_account(e_account(ek(MAKER), ek(MINT_A), 1_000)).unwrap();
    let mut frozen = e_account(ek(TAKER), ek(MINT_B), 500);
    frozen.frozen = true;
    ledger.put_account(frozen).unwrap();
    ledger.make(&e_make(7), 7, 500, 1_000, 0).unwrap();
    assert_eq!(ledger.take(&e_take(7)), Err(Error::Token(TokenError::AccountFrozen)));
    e_unchanged_after_take(&ledger);
}

#[test]
fn take_into_a_frozen_account_undoes_the_payment() {
    let mut ledger = e_ledger();
    let mut frozen = e_account(ek(TAKER), ek(MINT_A), 5);
    frozen.frozen = true;
    ledger.put_account(frozen).unwrap();
    ledger.make(&e_make(7), 7, 500, 1_000, 0).unwrap();
    let accounts = e_take(7);
    assert_eq!(ledger.take(&accounts), Err(Error::Token(TokenError::AccountFrozen)));
    assert_eq!(ledger.token_account(&accounts.taker_ata_mint_b).unwrap().amount, 500);
    assert_eq!(ledger.token_account(&accounts.maker_ata_mint_b), None);
    assert_eq!(ledger.token_account(&accounts.vault).unwrap().amount, 1_000);
    assert_eq!(ledger.token_account(&accounts.taker_ata_mint_a), Some(frozen));
}

#[test]
fn take_that_would_overflow_the_makers_balance_fails() {
    let mut ledger = e_ledger();
    ledger.put_account(e_account(ek(MAKER), ek(MINT_B), u64::MAX - 499)).unwrap();
    ledger.make(&e_make(7), 7, 500, 1_000, 0).unwrap();
    let accounts = e_take(7);
    assert_eq!(ledger.take(&accounts), Err(Error::Escrow(EscrowError::Overflow)));
    assert_eq!(ledger.token_account(&accounts.maker_ata_mint_b).unwrap().amount, u64::MAX - 499);
    assert_eq!(ledger.token_account(&accounts.taker_ata_mint_b).unwrap().amount, 500);
    assert_eq!(ledger.token_account(&accounts.vault).unwrap().amount, 1_000);
}

#[test]
fn take_that_fills_the_makers_balance_to_the_brim_succeeds() {
    let mut ledger = e_ledger();
    ledger.put_account(e_account(ek(MAKER), ek(MINT_B), u64::MAX - 500)).unwrap();
    ledger.make(&e_make(7), 7, 500, 1_000, 0).unwrap();
    let accounts = e_take(7);
    let settlement = ledger.take(&accounts).unwrap();
    assert_eq!(settlement.payment.amount, 500);
    assert_eq!(settlement.release.amount, 1_000);
    assert_eq!(ledger.token_account(&accounts.maker_ata_mint_b).unwrap().amount, u64::MAX);
}

#[test]
fn put_account_refuses_a_taken_address() {
    let mut ledger = e_ledger();
    let again = e_account(ek(MAKER), ek(MINT_A), 5);
    assert_eq!(ledger.put_account(again), Err(Error::Account(AccountError::AccountInUse)));
    assert_eq!(ledger.token_account(&again.key).unwrap().amount, 1_000);
}

#[test]
fn put_escrow_refuses_a_taken_address_and_a_trade_of_a_mint_against_itself() {
    let mut ledger = e_open();
    let (escrow, bump) = e_escrow(&ek(MAKER), 7);
    let record = EscrowState {
        receive_amount: 1,
        maker: ek(MAKER),
        mint_a: ek(MINT_A),
        mint_b: ek(MINT_B),
        bump,
        seed: 7,
    };
    assert_eq!(ledger.put_escrow(escrow, record), Err(Error::Account(AccountError::AccountInUse)));
    assert_eq!(ledger.escrow(&escrow).unwrap().receive_amount, 500);
    let same = EscrowState { mint_b: ek(MINT_A), ..record };
    assert_eq!(ledger.put_escrow(ek(90), same), Err(Error::Escrow(EscrowError::SameMint)));
    assert_eq!(ledger.escrow(&ek(90)), None);
}

#[test]
fn error_messages() {
    assert_eq!(EscrowError::SameMint.message(), "Cannot use same mint for both tokens");
    assert_eq!(
        EscrowError::InsufficientBalance.message(),
        "Insufficient balance in maker's account"
    );
    assert_eq!(EscrowError::Overflow.message(), "Overflow/underflow detected");
    assert_eq!(EscrowError::AccountFrozen.message(), "Account is frozen");
    assert_eq!(EscrowError::InvalidVaultAuthority.message(), "Invalid vault authority");
    assert_eq!(EscrowError::VaultAlreadyFunded.message(), "Vault already contains funds");
}
