use vstd::prelude::*;
use crate::address::Address;

verus! {

/// A token kind, with the number of decimals its amounts carry.
#[derive(Clone, Copy, Debug)]
pub struct Mint {
    pub key: Address,
    pub decimals: u8,
}

/// A holding of one token kind, controlled by `owner`.
#[derive(Clone, Copy, Debug)]
pub struct TokenAccount {
    pub key: Address,
    pub mint: Address,
    pub owner: Address,
    pub amount: u64,
}

/// One pending swap. Written once by creation, read by cancel and exchange,
/// and destroyed by whichever of them runs.
#[derive(Clone, Copy, Debug)]
pub struct EscrowState {
    pub random_seed: u64,
    pub initializer_key: Address,
    pub initializer_deposit_token_account: Address,
    pub initializer_receive_token_account: Address,
    pub initializer_amount: u64,
    pub taker_amount: u64,
    pub vault_authority_bump: u8,
}

/// Bytes of the record's header.
pub const DISCRIMINATOR_LEN: usize = 8;

/// Bytes of the record's body: the seed, three identities, two amounts and
/// the bump.
pub const BODY_LEN: usize = 121;

impl EscrowState {
    /// Bytes that a stored record takes.
    pub fn space() -> (r: usize)
        ensures
            r == 8 + 8 + 3 * 32 + 2 * 8 + 1,
    {
        DISCRIMINATOR_LEN + BODY_LEN
    }
}

} // verus!
