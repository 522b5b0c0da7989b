use vstd::prelude::*;
use crate::address::Address;
use crate::error::EscrowError;
use crate::instructions::{
    Cancel, Exchange, Initialize, cancel_error, cancelled, exchange_error, exchanged,
    initialize_error, initialized,
};
use crate::seeds::vault_authority_of;

verus! {

/// The cancel that the initializer of a freshly created escrow submits:
/// the accounts that creation left, as they stand.
pub open spec fn cancel_after(post: Initialize) -> Cancel {
    Cancel {
        program_id: post.program_id,
        initializer: post.initializer,
        mint: post.mint,
        vault_key: post.vault_key,
        vault: post.vault,
        vault_authority: post.vault_authority,
        initializer_deposit_token_account: post.initializer_deposit_token_account,
        escrow_state: post.escrow_state,
    }
}

/// `x` is an exchange of the escrow that creation left in `post`, by a taker
/// who owns a deposit account of the asked kind holding at least the asked
/// amount, receives in an account of the deposited kind, moves funds between
/// four different accounts, and whose credits fit in a balance.
pub open spec fn valid_exchange_after(post: Initialize, x: Exchange) -> bool {
    let st = post.escrow_state->Some_0;
    &&& x.program_id == post.program_id
    &&& x.initializer == post.initializer
    &&& x.initializer_deposit_token_mint == post.mint
    &&& x.initializer_deposit_token_account == post.initializer_deposit_token_account
    &&& x.initializer_receive_token_account == post.initializer_receive_token_account
    &&& x.escrow_state == post.escrow_state
    &&& x.vault_key == post.vault_key
    &&& x.vault == post.vault
    &&& x.vault_authority == post.vault_authority
    &&& x.taker_deposit_token_account.owner@ == x.taker@
    &&& x.taker_deposit_token_account.amount >= st.taker_amount
    &&& x.taker_deposit_token_account.mint@ == x.taker_deposit_token_mint.key@
    &&& x.initializer_receive_token_account.mint@ == x.taker_deposit_token_mint.key@
    &&& x.taker_receive_token_account.mint@ == post.mint.key@
    &&& x.taker_deposit_token_account.key@ != x.taker_receive_token_account.key@
    &&& x.taker_deposit_token_account.key@ != x.initializer_receive_token_account.key@
    &&& x.taker_deposit_token_account.key@ != x.vault_key@
    &&& x.taker_receive_token_account.key@ != x.initializer_receive_token_account.key@
    &&& x.taker_receive_token_account.key@ != x.vault_key@
    &&& x.initializer_receive_token_account.key@ != x.vault_key@
    &&& x.initializer_receive_token_account.amount + st.taker_amount <= u64::MAX
    &&& x.taker_receive_token_account.amount + st.initializer_amount <= u64::MAX
}

/// A successful creation followed at once by the initializer's cancel: the
/// cancel succeeds, gives the deposit account back exactly the amount it
/// had before creation, and leaves neither vault nor record.
pub proof fn lemma_cancel_undoes_initialize(
    pre: Initialize,
    post: Initialize,
    random_seed: u64,
    initializer_amount: u64,
    taker_amount: u64,
    after: Cancel,
)
    requires
        initialize_error(pre, random_seed, initializer_amount) is None,
        initialized(pre, post, random_seed, initializer_amount, taker_amount),
        cancelled(cancel_after(post), after),
    ensures
        cancel_error(cancel_after(post)) is None,
        after.initializer_deposit_token_account.amount
            == pre.initializer_deposit_token_account.amount,
        after.vault is None,
        after.escrow_state is None,
{
}

/// A successful creation followed by a valid exchange: the exchange
/// succeeds, the initializer's receive account gains the asked amount, the
/// taker's receive account gains the deposit, the taker's deposit account
/// pays the asked amount, and neither vault nor record is left.
pub proof fn lemma_exchange_completes_initialize(
    pre: Initialize,
    post: Initialize,
    random_seed: u64,
    initializer_amount: u64,
    taker_amount: u64,
    x: Exchange,
    after: Exchange,
)
    requires
        initialize_error(pre, random_seed, initializer_amount) is None,
        initialized(pre, post, random_seed, initializer_amount, taker_amount),
        valid_exchange_after(post, x),
        exchanged(x, after),
    ensures
        exchange_error(x) is None,
        after.initializer_receive_token_account.amount
            == x.initializer_receive_token_account.amount + taker_amount,
        after.taker_receive_token_account.amount == x.taker_receive_token_account.amount
            + initializer_amount,
        after.taker_deposit_token_account.amount == x.taker_deposit_token_account.amount
            - taker_amount,
        after.vault is None,
        after.escrow_state is None,
{
}

/// Creation asked to move more than the deposit account holds is refused
/// with `InsufficientBalance`, whatever else holds; a refused creation
/// allocates nothing.
pub proof fn lemma_initialize_needs_balance(a: Initialize, random_seed: u64, initializer_amount: u64)
    requires
        a.initializer_deposit_token_account.amount < initializer_amount,
    ensures
        initialize_error(a, random_seed, initializer_amount) == Some(
            EscrowError::InsufficientBalance,
        ),
{
}

/// A cancel whose deposit account is not the one the record stores is
/// refused with `RecordMismatch`; a refused cancel changes nothing.
pub proof fn lemma_cancel_checks_references(c: Cancel)
    requires
        c.escrow_state is Some,
        c.escrow_state->Some_0.initializer_deposit_token_account@
            != c.initializer_deposit_token_account.key@,
    ensures
        cancel_error(c) == Some(EscrowError::RecordMismatch),
{
}

/// An exchange whose initializer deposit or receive account is not the one
/// the record stores is refused with `RecordMismatch`; a refused exchange
/// changes nothing.
pub proof fn lemma_exchange_checks_references(x: Exchange)
    requires
        x.escrow_state is Some,
        x.escrow_state->Some_0.initializer_deposit_token_account@
            != x.initializer_deposit_token_account.key@
            || x.escrow_state->Some_0.initializer_receive_token_account@
            != x.initializer_receive_token_account.key@,
    ensures
        exchange_error(x) == Some(EscrowError::RecordMismatch),
{
}

/// Once a cancel has consumed a record, neither a second cancel nor an
/// exchange presented with what it left can succeed.
pub proof fn lemma_cancel_consumes_record(c: Cancel, after: Cancel, x: Exchange)
    requires
        cancelled(c, after),
        x.escrow_state == after.escrow_state,
    ensures
        cancel_error(after) == Some(EscrowError::RecordMismatch),
        exchange_error(x) == Some(EscrowError::RecordMismatch),
{
}

/// Once an exchange has consumed a record, neither a second exchange nor a
/// cancel presented with what it left can succeed.
pub proof fn lemma_exchange_consumes_record(x: Exchange, after: Exchange, c: Cancel)
    requires
        exchanged(x, after),
        c.escrow_state == after.escrow_state,
    ensures
        exchange_error(after) == Some(EscrowError::RecordMismatch),
        cancel_error(c) == Some(EscrowError::RecordMismatch),
{
}

/// Deriving the vault authority twice for one program gives the same
/// authority and the same bump.
pub proof fn lemma_authority_deterministic(first: Address, second: Address)
    requires
        first@ == second@,
    ensures
        vault_authority_of(first@) == vault_authority_of(second@),
{
}

} // verus!
