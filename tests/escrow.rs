use solana_escrow_program::address::Address;
use solana_escrow_program::error::EscrowError;
use solana_escrow_program::instructions::{cancel, exchange, initialize, Cancel, Exchange, Initialize};
use solana_escrow_program::seeds::{
    find_state_address, find_vault_address, find_vault_authority, to_le_bytes,
    vault_authority_from_bump,
};
use solana_escrow_program::state::{EscrowState, Mint, TokenAccount};

fn addr(n: u8) -> Address {
    Address::new([n; 32])
}

fn program() -> Address {
    addr(200)
}

const INITIALIZER: u8 = 1;
const TAKER: u8 = 2;
const MINT_A: u8 = 10;
const MINT_B: u8 = 11;
const INIT_DEPOSIT: u8 = 20;
const INIT_RECEIVE: u8 = 21;
const TAKER_DEPOSIT: u8 = 22;
const TAKER_RECEIVE: u8 = 23;

fn account(key: u8, mint: u8, owner: u8, amount: u64) -> TokenAccount {
    TokenAccount { key: addr(key), mint: addr(mint), owner: addr(owner), amount }
}

fn creation(seed: u64, deposit_balance: u64) -> Initialize {
    let (authority, _) = find_vault_authority(&program()).unwrap();
    let (state_key, _) = find_state_address(&program(), seed).unwrap();
    let (vault_key, _) = find_vault_address(&program(), seed).unwrap();
    Initialize {
        program_id: program(),
        initializer: addr(INITIALIZER),
        mint: Mint { key: addr(MINT_A), decimals: 6 },
        vault_authority: authority,
        vault_key,
        vault: None,
        initializer_deposit_token_account: account(INIT_DEPOSIT, MINT_A, INITIALIZER, deposit_balance),
        initializer_receive_token_account: account(INIT_RECEIVE, MINT_B, INITIALIZER, 0),
        escrow_state_key: state_key,
        escrow_state: None,
    }
}

fn cancel_of(i: &Initialize) -> Cancel {
    Cancel {
        program_id: i.program_id,
        initializer: i.initializer,
        mint: i.mint,
        vault_key: i.vault_key,
        vault: i.vault,
        vault_authority: i.vault_authority,
        initializer_deposit_token_account: i.initializer_deposit_token_account,
        escrow_state: i.escrow_state,
    }
}

fn exchange_of(i: &Initialize, taker_balance: u64) -> Exchange {
    Exchange {
        program_id: i.program_id,
        taker: addr(TAKER),
        initializer_deposit_token_mint: i.mint,
        taker_deposit_token_mint: Mint { key: addr(MINT_B), decimals: 9 },
        taker_deposit_token_account: account(TAKER_DEPOSIT, MINT_B, TAKER, taker_balance),
        taker_receive_token_account: account(TAKER_RECEIVE, MINT_A, TAKER, 0),
        initializer_deposit_token_account: i.initializer_deposit_token_account,
        initializer_receive_token_account: i.initializer_receive_token_account,
        initializer: i.initializer,
        escrow_state: i.escrow_state,
        vault_key: i.vault_key,
        vault: i.vault,
        vault_authority: i.vault_authority,
    }
}

#[test]
fn initialize_fills_record_and_vault() {
    let mut i = creation(7, 100);
    assert_eq!(initialize(&mut i, 7, 100, 50), Ok(()));
    let st = i.escrow_state.unwrap();
    assert_eq!(st.random_seed, 7);
    assert!(st.initializer_key == addr(INITIALIZER));
    assert!(st.initializer_deposit_token_account == addr(INIT_DEPOSIT));
    assert!(st.initializer_receive_token_account == addr(INIT_RECEIVE));
    assert_eq!(st.initializer_amount, 100);
    assert_eq!(st.taker_amount, 50);
    let (_, bump) = find_vault_authority(&program()).unwrap();
    assert_eq!(st.vault_authority_bump, bump);
    let vault = i.vault.unwrap();
    assert_eq!(vault.amount, 100);
    assert!(vault.owner == i.vault_authority);
    assert_eq!(i.initializer_deposit_token_account.amount, 0);
}

#[test]
fn cancel_after_initialize_restores_deposit() {
    let mut i = creation(3, 250);
    assert_eq!(initialize(&mut i, 3, 100, 40), Ok(()));
    assert_eq!(i.initializer_deposit_token_account.amount, 150);
    let mut c = cancel_of(&i);
    assert_eq!(cancel(&mut c), Ok(()));
    assert_eq!(c.initializer_deposit_token_account.amount, 250);
    assert!(c.vault.is_none());
    assert!(c.escrow_state.is_none());
}

#[test]
fn exchange_after_initialize_pays_both_sides() {
    let mut i = creation(4, 300);
    assert_eq!(initialize(&mut i, 4, 120, 70), Ok(()));
    let mut x = exchange_of(&i, 90);
    assert_eq!(exchange(&mut x), Ok(()));
    assert_eq!(x.initializer_receive_token_account.amount, 70);
    assert_eq!(x.taker_receive_token_account.amount, 120);
    assert_eq!(x.taker_deposit_token_account.amount, 20);
    assert!(x.vault.is_none());
    assert!(x.escrow_state.is_none());
}

#[test]
fn initialize_with_insufficient_balance_fails() {
    let mut i = creation(5, 50);
    let before = i;
    assert_eq!(initialize(&mut i, 5, 100, 10), Err(EscrowError::InsufficientBalance));
    assert!(i.escrow_state.is_none());
    assert!(i.vault.is_none());
    assert_eq!(i.initializer_deposit_token_account.amount, before.initializer_deposit_token_account.amount);
}

#[test]
fn initialize_of_occupied_slot_fails() {
    let mut i = creation(6, 100);
    assert_eq!(initialize(&mut i, 6, 10, 10), Ok(()));
    assert_eq!(initialize(&mut i, 6, 10, 10), Err(EscrowError::DuplicateRecord));
    assert_eq!(i.initializer_deposit_token_account.amount, 90);
}

#[test]
fn initialize_by_non_owner_fails() {
    let mut i = creation(8, 100);
    i.initializer = addr(99);
    assert_eq!(initialize(&mut i, 8, 10, 10), Err(EscrowError::UnauthorizedCaller));
    assert!(i.escrow_state.is_none());
}

#[test]
fn initialize_with_foreign_state_address_fails() {
    let mut i = creation(9, 100);
    assert_eq!(initialize(&mut i, 10, 10, 10), Err(EscrowError::RecordMismatch));
    assert!(i.vault.is_none());
}

#[test]
fn initialize_with_foreign_authority_fails() {
    let mut i = creation(11, 100);
    i.vault_authority = addr(77);
    assert_eq!(initialize(&mut i, 11, 10, 10), Err(EscrowError::RecordMismatch));
}

#[test]
fn cancel_with_wrong_deposit_account_fails() {
    let mut i = creation(12, 100);
    assert_eq!(initialize(&mut i, 12, 60, 10), Ok(()));
    let mut c = cancel_of(&i);
    c.initializer_deposit_token_account = account(55, MINT_A, INITIALIZER, 5);
    assert_eq!(cancel(&mut c), Err(EscrowError::RecordMismatch));
    assert_eq!(c.initializer_deposit_token_account.amount, 5);
    assert_eq!(c.vault.unwrap().amount, 60);
    assert!(c.escrow_state.is_some());
}

#[test]
fn cancel_by_other_signer_fails() {
    let mut i = creation(13, 100);
    assert_eq!(initialize(&mut i, 13, 60, 10), Ok(()));
    let mut c = cancel_of(&i);
    c.initializer = addr(TAKER);
    assert_eq!(cancel(&mut c), Err(EscrowError::UnauthorizedCaller));
    assert_eq!(c.vault.unwrap().amount, 60);
}

#[test]
fn exchange_with_wrong_receive_account_fails() {
    let mut i = creation(14, 100);
    assert_eq!(initialize(&mut i, 14, 100, 50), Ok(()));
    let mut x = exchange_of(&i, 50);
    x.initializer_receive_token_account = account(56, MINT_B, TAKER, 0);
    assert_eq!(exchange(&mut x), Err(EscrowError::RecordMismatch));
    assert_eq!(x.taker_deposit_token_account.amount, 50);
    assert_eq!(x.taker_receive_token_account.amount, 0);
    assert_eq!(x.vault.unwrap().amount, 100);
    assert!(x.escrow_state.is_some());
}

#[test]
fn exchange_with_short_taker_balance_fails() {
    let mut i = creation(15, 100);
    assert_eq!(initialize(&mut i, 15, 100, 50), Ok(()));
    let mut x = exchange_of(&i, 49);
    assert_eq!(exchange(&mut x), Err(EscrowError::InsufficientBalance));
    assert_eq!(x.vault.unwrap().amount, 100);
}

#[test]
fn exchange_from_foreign_deposit_account_fails() {
    let mut i = creation(16, 100);
    assert_eq!(initialize(&mut i, 16, 100, 50), Ok(()));
    let mut x = exchange_of(&i, 50);
    x.taker = addr(98);
    assert_eq!(exchange(&mut x), Err(EscrowError::UnauthorizedCaller));
}

#[test]
fn exchange_overflowing_receive_account_fails() {
    let mut i = creation(17, 100);
    assert_eq!(initialize(&mut i, 17, 100, 50), Ok(()));
    let mut x = exchange_of(&i, 50);
    x.taker_receive_token_account.amount = u64::MAX;
    assert_eq!(exchange(&mut x), Err(EscrowError::BalanceOverflow));
    assert_eq!(x.taker_deposit_token_account.amount, 50);
}

#[test]
fn cancel_with_bad_bump_fails() {
    let mut i = creation(18, 100);
    assert_eq!(initialize(&mut i, 18, 100, 50), Ok(()));
    let mut c = cancel_of(&i);
    let mut st = c.escrow_state.unwrap();
    st.vault_authority_bump = st.vault_authority_bump.wrapping_add(1);
    c.escrow_state = Some(st);
    let r = cancel(&mut c);
    assert!(r == Err(EscrowError::RecordMismatch) || r == Err(EscrowError::CapabilityDerivationFailure));
    assert_eq!(c.vault.unwrap().amount, 100);
}

#[test]
fn swap_of_hundred_against_fifty() {
    let mut i = creation(42, 100);
    assert_eq!(initialize(&mut i, 42, 100, 50), Ok(()));
    assert_eq!(i.vault.unwrap().amount, 100);
    let mut x = exchange_of(&i, 50);
    assert_eq!(exchange(&mut x), Ok(()));
    assert_eq!(x.initializer_receive_token_account.amount, 50);
    assert_eq!(x.taker_receive_token_account.amount, 100);
    assert_eq!(x.taker_deposit_token_account.amount, 0);
    assert!(x.vault.is_none());
    assert!(x.escrow_state.is_none());
    assert_eq!(exchange(&mut x), Err(EscrowError::RecordMismatch));
    assert_eq!(x.initializer_receive_token_account.amount, 50);
    let mut c = cancel_of(&i);
    c.escrow_state = None;
    assert_eq!(cancel(&mut c), Err(EscrowError::RecordMismatch));
}

#[test]
fn authority_derivation_is_deterministic() {
    let first = find_vault_authority(&program()).unwrap();
    let second = find_vault_authority(&program()).unwrap();
    assert!(first.0 == second.0);
    assert_eq!(first.1, second.1);
    assert!(!(first.0 == program()));
    let other = find_vault_authority(&addr(201)).unwrap();
    assert!(!(other.0 == first.0));
}

#[test]
fn authority_is_rederived_from_its_bump() {
    let (authority, bump) = find_vault_authority(&program()).unwrap();
    let again = vault_authority_from_bump(&program(), bump).unwrap();
    assert!(again == authority);
    assert!(!(again == program()));
}

#[test]
fn each_escrow_has_its_own_vault() {
    let (a, _) = find_vault_address(&program(), 1).unwrap();
    let (b, _) = find_vault_address(&program(), 2).unwrap();
    let (c, _) = find_state_address(&program(), 1).unwrap();
    assert!(!(a == b));
    assert!(!(a == c));
    assert!(a == find_vault_address(&program(), 1).unwrap().0);
}

#[test]
fn initialize_with_foreign_vault_fails() {
    let mut i = creation(21, 100);
    i.vault_key = find_vault_address(&program(), 22).unwrap().0;
    assert_eq!(initialize(&mut i, 21, 10, 10), Err(EscrowError::RecordMismatch));
    assert!(i.vault.is_none());
    assert_eq!(i.initializer_deposit_token_account.amount, 100);
}

#[test]
fn cancel_draining_another_escrows_vault_fails() {
    let mut first = creation(23, 100);
    assert_eq!(initialize(&mut first, 23, 60, 10), Ok(()));
    let mut second = creation(24, 100);
    assert_eq!(initialize(&mut second, 24, 60, 10), Ok(()));
    let mut c = cancel_of(&first);
    c.vault_key = second.vault_key;
    c.vault = second.vault;
    assert_eq!(cancel(&mut c), Err(EscrowError::RecordMismatch));
    assert_eq!(c.vault.unwrap().amount, 60);
    assert!(c.escrow_state.is_some());
}

#[test]
fn exchange_paying_into_own_deposit_account_fails() {
    let mut i = creation(25, 100);
    assert_eq!(initialize(&mut i, 25, 100, 50), Ok(()));
    let mut x = exchange_of(&i, 50);
    let mut st = x.escrow_state.unwrap();
    st.initializer_receive_token_account = addr(TAKER_DEPOSIT);
    x.escrow_state = Some(st);
    x.initializer_receive_token_account = account(TAKER_DEPOSIT, MINT_B, INITIALIZER, 7);
    assert_eq!(exchange(&mut x), Err(EscrowError::RecordMismatch));
    assert_eq!(x.taker_deposit_token_account.amount, 50);
    assert_eq!(x.vault.unwrap().amount, 100);
}

#[test]
fn exchange_into_the_vault_itself_fails() {
    let mut i = creation(26, 100);
    assert_eq!(initialize(&mut i, 26, 100, 50), Ok(()));
    let mut x = exchange_of(&i, 50);
    x.taker_receive_token_account.key = x.vault_key;
    assert_eq!(exchange(&mut x), Err(EscrowError::RecordMismatch));
    assert_eq!(x.vault.unwrap().amount, 100);
}

#[test]
fn state_address_depends_on_seed() {
    let (a, _) = find_state_address(&program(), 1).unwrap();
    let (b, _) = find_state_address(&program(), 2).unwrap();
    let (c, _) = find_state_address(&program(), 1).unwrap();
    assert!(!(a == b));
    assert!(a == c);
}

#[test]
fn seed_is_encoded_little_endian() {
    assert_eq!(to_le_bytes(0x0102030405060708), vec![8, 7, 6, 5, 4, 3, 2, 1]);
    assert_eq!(to_le_bytes(0), vec![0; 8]);
    assert_eq!(to_le_bytes(u64::MAX), vec![255; 8]);
}

#[test]
fn record_space_is_header_and_body() {
    assert_eq!(EscrowState::space(), 129);
}

#[test]
fn vault_closure_pays_initializer() {
    let mut i = creation(19, 100);
    assert_eq!(initialize(&mut i, 19, 100, 50), Ok(()));
    let x = exchange_of(&i, 50);
    let close = x.into_close_context();
    assert!(close.destination == addr(INITIALIZER));
    assert!(close.account == i.vault_key);
    assert!(close.authority == i.vault_authority);
    let c = cancel_of(&i);
    assert!(c.into_close_context().destination == addr(INITIALIZER));
}

#[test]
fn transfer_contexts_name_the_right_accounts() {
    let i = creation(20, 100);
    let t = i.into_transfer_to_pda_context();
    assert!(t.from == addr(INIT_DEPOSIT) && t.to == i.vault_key && t.authority == addr(INITIALIZER));
    assert!(t.mint == addr(MINT_A));
    let x = exchange_of(&i, 50);
    let pay = x.into_transfer_to_initializer_context();
    assert!(pay.from == addr(TAKER_DEPOSIT) && pay.to == addr(INIT_RECEIVE) && pay.authority == addr(TAKER));
    assert!(pay.mint == addr(MINT_B));
    let release = x.into_transfer_to_taker_context();
    assert!(release.from == i.vault_key && release.to == addr(TAKER_RECEIVE));
    assert!(release.authority == i.vault_authority && release.mint == addr(MINT_A));
    let c = cancel_of(&i);
    let refund = c.into_transfer_to_initializer_context();
    assert!(refund.from == i.vault_key && refund.to == addr(INIT_DEPOSIT));
    assert!(refund.authority == i.vault_authority);
}
