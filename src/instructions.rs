use vstd::prelude::*;
use crate::address::{Address, on_curve};
use crate::error::EscrowError;
use crate::seeds::{
    find_state_address, find_vault_address, find_vault_authority, state_address_of,
    vault_address_of, vault_authority_by_bump, vault_authority_from_bump, vault_authority_of,
};
use crate::state::{EscrowState, Mint, TokenAccount};

verus! {

/// The accounts that creation reads and fills. `vault` and `escrow_state`
/// are the contents of the slots at `vault_key` and `escrow_state_key`:
/// `None` while the slot is unallocated.
#[derive(Clone, Copy, Debug)]
pub struct Initialize {
    pub program_id: Address,
    pub initializer: Address,
    pub mint: Mint,
    pub vault_authority: Address,
    pub vault_key: Address,
    pub vault: Option<TokenAccount>,
    pub initializer_deposit_token_account: TokenAccount,
    pub initializer_receive_token_account: TokenAccount,
    pub escrow_state_key: Address,
    pub escrow_state: Option<EscrowState>,
}

/// The accounts that a cancel reads and closes.
#[derive(Clone, Copy, Debug)]
pub struct Cancel {
    pub program_id: Address,
    pub initializer: Address,
    pub mint: Mint,
    pub vault_key: Address,
    pub vault: Option<TokenAccount>,
    pub vault_authority: Address,
    pub initializer_deposit_token_account: TokenAccount,
    pub escrow_state: Option<EscrowState>,
}

/// The accounts that an exchange reads, moves funds between and closes.
#[derive(Clone, Copy, Debug)]
pub struct Exchange {
    pub program_id: Address,
    pub taker: Address,
    pub initializer_deposit_token_mint: Mint,
    pub taker_deposit_token_mint: Mint,
    pub taker_deposit_token_account: TokenAccount,
    pub taker_receive_token_account: TokenAccount,
    pub initializer_deposit_token_account: TokenAccount,
    pub initializer_receive_token_account: TokenAccount,
    pub initializer: Address,
    pub escrow_state: Option<EscrowState>,
    pub vault_key: Address,
    pub vault: Option<TokenAccount>,
    pub vault_authority: Address,
}

/// A token transfer that the token program is asked to make.
#[derive(Clone, Copy, Debug)]
pub struct TransferChecked {
    pub from: Address,
    pub mint: Address,
    pub to: Address,
    pub authority: Address,
}

/// An account closure that the token program is asked to make; what the
/// account held for its storage goes to `destination`.
#[derive(Clone, Copy, Debug)]
pub struct CloseAccount {
    pub account: Address,
    pub destination: Address,
    pub authority: Address,
}

pub open spec fn outcome(e: Option<EscrowError>) -> Result<(), EscrowError> {
    match e {
        None => Ok(()),
        Some(e) => Err(e),
    }
}

/// The account `t` with `amount` as its balance.
pub open spec fn with_amount(t: TokenAccount, amount: int) -> TokenAccount {
    TokenAccount { amount: amount as u64, ..t }
}

/// The vault slot holds an account at `key`, of `mint`, controlled by
/// `owner`, with exactly `amount`.
pub open spec fn vault_holds(
    vault: Option<TokenAccount>,
    key: Seq<u8>,
    owner: Seq<u8>,
    mint: Seq<u8>,
    amount: u64,
) -> bool {
    &&& vault is Some
    &&& vault->Some_0.key@ == key
    &&& vault->Some_0.owner@ == owner
    &&& vault->Some_0.mint@ == mint
    &&& vault->Some_0.amount == amount
}

/// Why creation with these arguments is refused, if it is.
pub open spec fn initialize_error(a: Initialize, random_seed: u64, initializer_amount: u64) -> Option<
    EscrowError,
> {
    if a.initializer_deposit_token_account.amount < initializer_amount {
        Some(EscrowError::InsufficientBalance)
    } else if a.escrow_state is Some || a.vault is Some {
        Some(EscrowError::DuplicateRecord)
    } else if a.initializer_deposit_token_account.owner@ != a.initializer@ {
        Some(EscrowError::UnauthorizedCaller)
    } else if a.initializer_deposit_token_account.mint@ != a.mint.key@
        || a.initializer_deposit_token_account.key@ == a.vault_key@ {
        Some(EscrowError::RecordMismatch)
    } else {
        match vault_authority_of(a.program_id@) {
            None => Some(EscrowError::CapabilityDerivationFailure),
            Some(auth) => if auth.0 != a.vault_authority@ {
                Some(EscrowError::RecordMismatch)
            } else {
                match state_address_of(a.program_id@, random_seed) {
                    None => Some(EscrowError::CapabilityDerivationFailure),
                    Some(st) => if st.0 != a.escrow_state_key@ {
                        Some(EscrowError::RecordMismatch)
                    } else {
                        match vault_address_of(a.program_id@, random_seed) {
                            None => Some(EscrowError::CapabilityDerivationFailure),
                            Some(v) => if v.0 != a.vault_key@ {
                                Some(EscrowError::RecordMismatch)
                            } else {
                                None
                            },
                        }
                    },
                }
            },
        }
    }
}

/// `post` is `pre` after a successful creation: the record is filled in, the
/// vault holds the deposit under the authority, the deposit account gave it,
/// and the stored bump re-derives the authority.
pub open spec fn initialized(
    pre: Initialize,
    post: Initialize,
    random_seed: u64,
    initializer_amount: u64,
    taker_amount: u64,
) -> bool {
    let bump = vault_authority_of(pre.program_id@)->Some_0.1;
    &&& post.escrow_state == Some(
        EscrowState {
            random_seed,
            initializer_key: pre.initializer,
            initializer_deposit_token_account: pre.initializer_deposit_token_account.key,
            initializer_receive_token_account: pre.initializer_receive_token_account.key,
            initializer_amount,
            taker_amount,
            vault_authority_bump: bump,
        },
    )
    &&& post.vault == Some(
        TokenAccount {
            key: pre.vault_key,
            mint: pre.mint.key,
            owner: pre.vault_authority,
            amount: initializer_amount,
        },
    )
    &&& post.initializer_deposit_token_account == with_amount(
        pre.initializer_deposit_token_account,
        pre.initializer_deposit_token_account.amount - initializer_amount,
    )
    &&& post == Initialize {
        escrow_state: post.escrow_state,
        vault: post.vault,
        initializer_deposit_token_account: post.initializer_deposit_token_account,
        ..pre
    }
    &&& vault_authority_by_bump(pre.program_id@, bump) == Some(pre.vault_authority@)
    &&& !on_curve(pre.vault_authority@)
}

/// Opens an escrow: records the swap under `random_seed`, allocates the
/// vault under the derived authority and moves `initializer_amount` into it
/// from the initializer's deposit account. Every check comes before any
/// change, so a refusal leaves the accounts as they were.
pub fn initialize(
    accounts: &mut Initialize,
    random_seed: u64,
    initializer_amount: u64,
    taker_amount: u64,
) -> (r: Result<(), EscrowError>)
    ensures
        r == outcome(initialize_error(*old(accounts), random_seed, initializer_amount)),
        r is Ok ==> initialized(
            *old(accounts),
            *final(accounts),
            random_seed,
            initializer_amount,
            taker_amount,
        ),
        r is Err ==> *final(accounts) == *old(accounts),
{
    let deposit = accounts.initializer_deposit_token_account;
    if deposit.amount < initializer_amount {
        return Err(EscrowError::InsufficientBalance);
    }
    if accounts.escrow_state.is_some() || accounts.vault.is_some() {
        return Err(EscrowError::DuplicateRecord);
    }
    if !deposit.owner.same(&accounts.initializer) {
        return Err(EscrowError::UnauthorizedCaller);
    }
    if !deposit.mint.same(&accounts.mint.key) || deposit.key.same(&accounts.vault_key) {
        return Err(EscrowError::RecordMismatch);
    }
    let (authority, bump) = find_vault_authority(&accounts.program_id)?;
    if !authority.same(&accounts.vault_authority) {
        return Err(EscrowError::RecordMismatch);
    }
    let (state_key, _state_bump) = find_state_address(&accounts.program_id, random_seed)?;
    if !state_key.same(&accounts.escrow_state_key) {
        return Err(EscrowError::RecordMismatch);
    }
    let (vault_key, _vault_bump) = find_vault_address(&accounts.program_id, random_seed)?;
    if !vault_key.same(&accounts.vault_key) {
        return Err(EscrowError::RecordMismatch);
    }
    accounts.escrow_state = Some(
        EscrowState {
            random_seed,
            initializer_key: accounts.initializer,
            initializer_deposit_token_account: deposit.key,
            initializer_receive_token_account: accounts.initializer_receive_token_account.key,
            initializer_amount,
            taker_amount,
            vault_authority_bump: bump,
        },
    );
    accounts.vault = Some(
        TokenAccount {
            key: accounts.vault_key,
            mint: accounts.mint.key,
            owner: accounts.vault_authority,
            amount: initializer_amount,
        },
    );
    accounts.initializer_deposit_token_account.amount = deposit.amount - initializer_amount;
    Ok(())
}

/// Why a cancel of these accounts is refused, if it is.
pub open spec fn cancel_error(c: Cancel) -> Option<EscrowError> {
    match c.escrow_state {
        None => Some(EscrowError::RecordMismatch),
        Some(st) => if st.initializer_deposit_token_account@
            != c.initializer_deposit_token_account.key@ {
            Some(EscrowError::RecordMismatch)
        } else if st.initializer_key@ != c.initializer@ {
            Some(EscrowError::UnauthorizedCaller)
        } else {
            match vault_authority_by_bump(c.program_id@, st.vault_authority_bump) {
                None => Some(EscrowError::CapabilityDerivationFailure),
                Some(auth) => match vault_address_of(c.program_id@, st.random_seed) {
                    None => Some(EscrowError::CapabilityDerivationFailure),
                    Some(v) => if auth != c.vault_authority@ || v.0 != c.vault_key@ || !vault_holds(
                        c.vault,
                        c.vault_key@,
                        auth,
                        c.mint.key@,
                        st.initializer_amount,
                    ) || c.initializer_deposit_token_account.mint@ != c.mint.key@
                        || c.initializer_deposit_token_account.key@ == c.vault_key@ {
                        Some(EscrowError::RecordMismatch)
                    } else if c.initializer_deposit_token_account.amount + st.initializer_amount
                        > u64::MAX {
                        Some(EscrowError::BalanceOverflow)
                    } else {
                        None
                    },
                },
            }
        },
    }
}

/// `post` is `pre` after a successful cancel: the deposit is back in the
/// initializer's deposit account, the vault and the record are gone, and
/// the authority that released the deposit has no signing key.
pub open spec fn cancelled(pre: Cancel, post: Cancel) -> bool {
    let st = pre.escrow_state->Some_0;
    &&& !on_curve(pre.vault_authority@)
    &&& post == Cancel {
        initializer_deposit_token_account: with_amount(
            pre.initializer_deposit_token_account,
            pre.initializer_deposit_token_account.amount + st.initializer_amount,
        ),
        vault: None,
        escrow_state: None,
        ..pre
    }
}

/// Checks the vault slot against the authority, mint and amount it must
/// have.
fn vault_matches(vault: &Option<TokenAccount>, key: &Address, owner: &Address, mint: &Address, amount: u64) -> (r: bool)
    ensures
        r == vault_holds(*vault, key@, owner@, mint@, amount),
{
    match vault {
        None => false,
        Some(t) => t.key.same(key) && t.owner.same(owner) && t.mint.same(mint) && t.amount
            == amount,
    }
}

/// Unwinds a pending escrow for its initializer: the vault's whole deposit
/// goes back to the deposit account the record names, then the vault is
/// closed and the record destroyed. Every check comes before any change.
pub fn cancel(accounts: &mut Cancel) -> (r: Result<(), EscrowError>)
    ensures
        r == outcome(cancel_error(*old(accounts))),
        r is Ok ==> cancelled(*old(accounts), *final(accounts)),
        r is Err ==> *final(accounts) == *old(accounts),
{
    let st = match accounts.escrow_state {
        None => return Err(EscrowError::RecordMismatch),
        Some(st) => st,
    };
    let deposit = accounts.initializer_deposit_token_account;
    if !st.initializer_deposit_token_account.same(&deposit.key) {
        return Err(EscrowError::RecordMismatch);
    }
    if !st.initializer_key.same(&accounts.initializer) {
        return Err(EscrowError::UnauthorizedCaller);
    }
    let authority = vault_authority_from_bump(&accounts.program_id, st.vault_authority_bump)?;
    let (vault_key, _vault_bump) = find_vault_address(&accounts.program_id, st.random_seed)?;
    if !authority.same(&accounts.vault_authority) || !vault_key.same(&accounts.vault_key)
        || !vault_matches(
        &accounts.vault,
        &accounts.vault_key,
        &authority,
        &accounts.mint.key,
        st.initializer_amount,
    ) || !deposit.mint.same(&accounts.mint.key) || deposit.key.same(&accounts.vault_key) {
        return Err(EscrowError::RecordMismatch);
    }
    if deposit.amount > u64::MAX - st.initializer_amount {
        return Err(EscrowError::BalanceOverflow);
    }
    accounts.initializer_deposit_token_account.amount = deposit.amount + st.initializer_amount;
    accounts.vault = None;
    accounts.escrow_state = None;
    Ok(())
}

/// The four accounts whose balances an exchange changes are four different
/// accounts.
pub open spec fn exchange_accounts_distinct(x: Exchange) -> bool {
    let td = x.taker_deposit_token_account.key@;
    let tr = x.taker_receive_token_account.key@;
    let ir = x.initializer_receive_token_account.key@;
    let v = x.vault_key@;
    &&& td != tr
    &&& td != ir
    &&& td != v
    &&& tr != ir
    &&& tr != v
    &&& ir != v
}

fn accounts_distinct(x: &Exchange) -> (r: bool)
    ensures
        r == exchange_accounts_distinct(*x),
{
    let td = &x.taker_deposit_token_account.key;
    let tr = &x.taker_receive_token_account.key;
    let ir = &x.initializer_receive_token_account.key;
    let v = &x.vault_key;
    !td.same(tr) && !td.same(ir) && !td.same(v) && !tr.same(ir) && !tr.same(v) && !ir.same(v)
}

/// Why an exchange of these accounts is refused, if it is.
pub open spec fn exchange_error(x: Exchange) -> Option<EscrowError> {
    match x.escrow_state {
        None => Some(EscrowError::RecordMismatch),
        Some(st) => if st.initializer_deposit_token_account@
            != x.initializer_deposit_token_account.key@
            || st.initializer_receive_token_account@ != x.initializer_receive_token_account.key@
            || st.initializer_key@ != x.initializer@ {
            Some(EscrowError::RecordMismatch)
        } else if x.taker_deposit_token_account.amount < st.taker_amount {
            Some(EscrowError::InsufficientBalance)
        } else if x.taker_deposit_token_account.owner@ != x.taker@ {
            Some(EscrowError::UnauthorizedCaller)
        } else if x.taker_deposit_token_account.mint@ != x.taker_deposit_token_mint.key@
            || x.initializer_receive_token_account.mint@ != x.taker_deposit_token_mint.key@
            || x.taker_receive_token_account.mint@ != x.initializer_deposit_token_mint.key@
            || !exchange_accounts_distinct(x) {
            Some(EscrowError::RecordMismatch)
        } else {
            match vault_authority_by_bump(x.program_id@, st.vault_authority_bump) {
                None => Some(EscrowError::CapabilityDerivationFailure),
                Some(auth) => match vault_address_of(x.program_id@, st.random_seed) {
                    None => Some(EscrowError::CapabilityDerivationFailure),
                    Some(v) => if auth != x.vault_authority@ || v.0 != x.vault_key@ || !vault_holds(
                        x.vault,
                        x.vault_key@,
                        auth,
                        x.initializer_deposit_token_mint.key@,
                        st.initializer_amount,
                    ) {
                        Some(EscrowError::RecordMismatch)
                    } else if x.initializer_receive_token_account.amount + st.taker_amount
                        > u64::MAX || x.taker_receive_token_account.amount
                        + st.initializer_amount > u64::MAX {
                        Some(EscrowError::BalanceOverflow)
                    } else {
                        None
                    },
                },
            }
        },
    }
}

/// `post` is `pre` after a successful exchange: the taker paid the
/// initializer's receive account, the taker's receive account got the
/// deposit, the vault and the record are gone, and the authority that
/// released the deposit has no signing key.
pub open spec fn exchanged(pre: Exchange, post: Exchange) -> bool {
    let st = pre.escrow_state->Some_0;
    &&& !on_curve(pre.vault_authority@)
    &&& post == Exchange {
        taker_deposit_token_account: with_amount(
            pre.taker_deposit_token_account,
            pre.taker_deposit_token_account.amount - st.taker_amount,
        ),
        initializer_receive_token_account: with_amount(
            pre.initializer_receive_token_account,
            pre.initializer_receive_token_account.amount + st.taker_amount,
        ),
        taker_receive_token_account: with_amount(
            pre.taker_receive_token_account,
            pre.taker_receive_token_account.amount + st.initializer_amount,
        ),
        vault: None,
        escrow_state: None,
        ..pre
    }
}

/// Completes a pending escrow for a taker: the taker pays the agreed amount
/// into the initializer's receive account, the vault's deposit goes to the
/// taker's receive account, then the vault is closed and the record
/// destroyed. Every check comes before any change, so either both legs
/// happen or neither does.
pub fn exchange(accounts: &mut Exchange) -> (r: Result<(), EscrowError>)
    ensures
        r == outcome(exchange_error(*old(accounts))),
        r is Ok ==> exchanged(*old(accounts), *final(accounts)),
        r is Err ==> *final(accounts) == *old(accounts),
{
    let st = match accounts.escrow_state {
        None => return Err(EscrowError::RecordMismatch),
        Some(st) => st,
    };
    let taker_deposit = accounts.taker_deposit_token_account;
    let taker_receive = accounts.taker_receive_token_account;
    let initializer_receive = accounts.initializer_receive_token_account;
    if !st.initializer_deposit_token_account.same(&accounts.initializer_deposit_token_account.key)
        || !st.initializer_receive_token_account.same(&initializer_receive.key)
        || !st.initializer_key.same(&accounts.initializer) {
        return Err(EscrowError::RecordMismatch);
    }
    if taker_deposit.amount < st.taker_amount {
        return Err(EscrowError::InsufficientBalance);
    }
    if !taker_deposit.owner.same(&accounts.taker) {
        return Err(EscrowError::UnauthorizedCaller);
    }
    if !taker_deposit.mint.same(&accounts.taker_deposit_token_mint.key)
        || !initializer_receive.mint.same(&accounts.taker_deposit_token_mint.key)
        || !taker_receive.mint.same(&accounts.initializer_deposit_token_mint.key)
        || !accounts_distinct(accounts) {
        return Err(EscrowError::RecordMismatch);
    }
    let authority = vault_authority_from_bump(&accounts.program_id, st.vault_authority_bump)?;
    let (vault_key, _vault_bump) = find_vault_address(&accounts.program_id, st.random_seed)?;
    if !authority.same(&accounts.vault_authority) || !vault_key.same(&accounts.vault_key)
        || !vault_matches(
        &accounts.vault,
        &accounts.vault_key,
        &authority,
        &accounts.initializer_deposit_token_mint.key,
        st.initializer_amount,
    ) {
        return Err(EscrowError::RecordMismatch);
    }
    if initializer_receive.amount > u64::MAX - st.taker_amount || taker_receive.amount > u64::MAX
        - st.initializer_amount {
        return Err(EscrowError::BalanceOverflow);
    }
    accounts.taker_deposit_token_account.amount = taker_deposit.amount - st.taker_amount;
    accounts.initializer_receive_token_account.amount = initializer_receive.amount
        + st.taker_amount;
    accounts.taker_receive_token_account.amount = taker_receive.amount + st.initializer_amount;
    accounts.vault = None;
    accounts.escrow_state = None;
    Ok(())
}

impl Initialize {
    /// The transfer that funds the vault from the initializer's deposit
    /// account, signed by the initializer.
    pub fn into_transfer_to_pda_context(&self) -> (r: TransferChecked)
        ensures
            r == (TransferChecked {
                from: self.initializer_deposit_token_account.key,
                mint: self.mint.key,
                to: self.vault_key,
                authority: self.initializer,
            }),
    {
        TransferChecked {
            from: self.initializer_deposit_token_account.key,
            mint: self.mint.key,
            to: self.vault_key,
            authority: self.initializer,
        }
    }
}

impl Cancel {
    /// The refund from the vault to the initializer's deposit account,
    /// signed by the vault authority.
    pub fn into_transfer_to_initializer_context(&self) -> (r: TransferChecked)
        ensures
            r == (TransferChecked {
                from: self.vault_key,
                mint: self.mint.key,
                to: self.initializer_deposit_token_account.key,
                authority: self.vault_authority,
            }),
    {
        TransferChecked {
            from: self.vault_key,
            mint: self.mint.key,
            to: self.initializer_deposit_token_account.key,
            authority: self.vault_authority,
        }
    }

    /// The closure of the vault, whose storage deposit goes to the
    /// initializer.
    pub fn into_close_context(&self) -> (r: CloseAccount)
        ensures
            r == (CloseAccount {
                account: self.vault_key,
                destination: self.initializer,
                authority: self.vault_authority,
            }),
    {
        CloseAccount {
            account: self.vault_key,
            destination: self.initializer,
            authority: self.vault_authority,
        }
    }
}

impl Exchange {
    /// The taker's payment into the initializer's receive account, signed
    /// by the taker.
    pub fn into_transfer_to_initializer_context(&self) -> (r: TransferChecked)
        ensures
            r == (TransferChecked {
                from: self.taker_deposit_token_account.key,
                mint: self.taker_deposit_token_mint.key,
                to: self.initializer_receive_token_account.key,
                authority: self.taker,
            }),
    {
        TransferChecked {
            from: self.taker_deposit_token_account.key,
            mint: self.taker_deposit_token_mint.key,
            to: self.initializer_receive_token_account.key,
            authority: self.taker,
        }
    }

    /// The release of the vault's deposit to the taker's receive account,
    /// signed by the vault authority.
    pub fn into_transfer_to_taker_context(&self) -> (r: TransferChecked)
        ensures
            r == (TransferChecked {
                from: self.vault_key,
                mint: self.initializer_deposit_token_mint.key,
                to: self.taker_receive_token_account.key,
                authority: self.vault_authority,
            }),
    {
        TransferChecked {
            from: self.vault_key,
            mint: self.initializer_deposit_token_mint.key,
            to: self.taker_receive_token_account.key,
            authority: self.vault_authority,
        }
    }

    /// The closure of the vault; its storage deposit goes to the
    /// initializer, not to the taker.
    pub fn into_close_context(&self) -> (r: CloseAccount)
        ensures
            r == (CloseAccount {
                account: self.vault_key,
                destination: self.initializer,
                authority: self.vault_authority,
            }),
    {
        CloseAccount {
            account: self.vault_key,
            destination: self.initializer,
            authority: self.vault_authority,
        }
    }
}

} // verus!
