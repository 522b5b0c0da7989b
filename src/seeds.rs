use vstd::prelude::*;
use crate::address::{
    Address, found_program_address, created_program_address, on_curve, seeds_view,
    try_find_program_address, create_program_address,
};
use crate::error::EscrowError;

verus! {

/// The label `"authority"` from which the vault authority is derived.
pub open spec fn authority_label() -> Seq<u8> {
    seq![97u8, 117u8, 116u8, 104u8, 111u8, 114u8, 105u8, 116u8, 121u8]
}

/// The label `"state"` that starts the seeds of a record's address.
pub open spec fn state_label() -> Seq<u8> {
    seq![115u8, 116u8, 97u8, 116u8, 101u8]
}

/// The label `"vault"` that starts the seeds of a vault's address.
pub open spec fn vault_label() -> Seq<u8> {
    seq![118u8, 97u8, 117u8, 108u8, 116u8]
}

/// The `n` low bytes of `v`, least significant first.
pub open spec fn le_bytes(v: nat, n: nat) -> Seq<u8>
    decreases n,
{
    if n == 0 {
        Seq::empty()
    } else {
        seq![(v % 256) as u8] + le_bytes(v / 256, (n - 1) as nat)
    }
}

pub open spec fn authority_seeds() -> Seq<Seq<u8>> {
    seq![authority_label()]
}

pub open spec fn authority_seeds_with_bump(bump: u8) -> Seq<Seq<u8>> {
    seq![authority_label(), seq![bump]]
}

pub open spec fn state_seeds(seed: u64) -> Seq<Seq<u8>> {
    seq![state_label(), le_bytes(seed as nat, 8)]
}

pub open spec fn vault_seeds(seed: u64) -> Seq<Seq<u8>> {
    seq![vault_label(), le_bytes(seed as nat, 8)]
}

/// The vault authority of `program` and its bump, or nothing where the
/// search fails.
pub open spec fn vault_authority_of(program: Seq<u8>) -> Option<(Seq<u8>, u8)> {
    found_program_address(authority_seeds(), program)
}

/// The address of the record created with `seed`, and its bump.
pub open spec fn state_address_of(program: Seq<u8>, seed: u64) -> Option<(Seq<u8>, u8)> {
    found_program_address(state_seeds(seed), program)
}

/// The address of the vault of the escrow opened with `seed`, and its bump.
pub open spec fn vault_address_of(program: Seq<u8>, seed: u64) -> Option<(Seq<u8>, u8)> {
    found_program_address(vault_seeds(seed), program)
}

/// The authority that `bump` re-derives, or nothing.
pub open spec fn vault_authority_by_bump(program: Seq<u8>, bump: u8) -> Option<Seq<u8>> {
    created_program_address(authority_seeds_with_bump(bump), program)
}

fn authority_label_bytes() -> (r: Vec<u8>)
    ensures
        r@ == authority_label(),
{
    let r = vec![97u8, 117u8, 116u8, 104u8, 111u8, 114u8, 105u8, 116u8, 121u8];
    assert(r@ =~= authority_label());
    r
}

fn state_label_bytes() -> (r: Vec<u8>)
    ensures
        r@ == state_label(),
{
    let r = vec![115u8, 116u8, 97u8, 116u8, 101u8];
    assert(r@ =~= state_label());
    r
}

fn vault_label_bytes() -> (r: Vec<u8>)
    ensures
        r@ == vault_label(),
{
    let r = vec![118u8, 97u8, 117u8, 108u8, 116u8];
    assert(r@ =~= vault_label());
    r
}

/// The little-endian encoding of `v`.
pub fn to_le_bytes(v: u64) -> (r: Vec<u8>)
    ensures
        r@ == le_bytes(v as nat, 8),
{
    let mut r: Vec<u8> = Vec::new();
    let mut rest: u64 = v;
    let mut i: usize = 0;
    while i < 8
        invariant
            i <= 8,
            r@ + le_bytes(rest as nat, (8 - i) as nat) == le_bytes(v as nat, 8),
        decreases 8 - i,
    {
        let ghost before = r@;
        r.push((rest % 256) as u8);
        proof {
            assert(le_bytes(rest as nat, (8 - i) as nat) == seq![(rest % 256) as u8] + le_bytes(
                (rest / 256) as nat,
                (8 - i - 1) as nat,
            ));
            assert(r@ + le_bytes((rest / 256) as nat, (8 - i - 1) as nat) =~= before + le_bytes(
                rest as nat,
                (8 - i) as nat,
            ));
        }
        rest = rest / 256;
        i = i + 1;
    }
    assert(le_bytes(rest as nat, 0) =~= Seq::<u8>::empty());
    assert(r@ =~= r@ + le_bytes(rest as nat, 0));
    r
}

/// Derives the key-less authority that controls every vault of `program`,
/// with the bump that made the derivation succeed. The result depends on the
/// program alone, so deriving again gives the same pair; the authority is
/// not a curve point, so no signing key exists for it; and the bump alone
/// re-derives it.
pub fn find_vault_authority(program: &Address) -> (r: Result<(Address, u8), EscrowError>)
    ensures
        match vault_authority_of(program@) {
            Some(p) => r matches Ok(q) && q.0@ == p.0 && q.1 == p.1,
            None => r == Err::<(Address, u8), EscrowError>(EscrowError::CapabilityDerivationFailure),
        },
        r matches Ok(q) ==> !on_curve(q.0@) && vault_authority_by_bump(program@, q.1) == Some(q.0@),
{
    let seeds: Vec<Vec<u8>> = vec![authority_label_bytes()];
    assert(seeds_view(seeds@) =~= authority_seeds());
    match try_find_program_address(&seeds, program) {
        Some(p) => {
            assert(seeds_view(seeds@).push(seq![p.1]) =~= authority_seeds_with_bump(p.1));
            Ok(p)
        },
        None => Err(EscrowError::CapabilityDerivationFailure),
    }
}

/// Re-derives the vault authority of `program` from a stored bump.
pub fn vault_authority_from_bump(program: &Address, bump: u8) -> (r: Result<Address, EscrowError>)
    ensures
        match vault_authority_by_bump(program@, bump) {
            Some(a) => r matches Ok(q) && q@ == a,
            None => r == Err::<Address, EscrowError>(EscrowError::CapabilityDerivationFailure),
        },
        r matches Ok(q) ==> !on_curve(q@),
{
    let bump_seed: Vec<u8> = vec![bump];
    assert(bump_seed@ =~= seq![bump]);
    let seeds: Vec<Vec<u8>> = vec![authority_label_bytes(), bump_seed];
    assert(seeds_view(seeds@) =~= authority_seeds_with_bump(bump));
    match create_program_address(&seeds, program) {
        Some(a) => Ok(a),
        None => Err(EscrowError::CapabilityDerivationFailure),
    }
}

/// Derives the address at which the record opened with `seed` is stored,
/// with its bump.
pub fn find_state_address(program: &Address, seed: u64) -> (r: Result<(Address, u8), EscrowError>)
    ensures
        match state_address_of(program@, seed) {
            Some(p) => r matches Ok(q) && q.0@ == p.0 && q.1 == p.1,
            None => r == Err::<(Address, u8), EscrowError>(EscrowError::CapabilityDerivationFailure),
        },
{
    let seeds: Vec<Vec<u8>> = vec![state_label_bytes(), to_le_bytes(seed)];
    assert(seeds_view(seeds@) =~= state_seeds(seed));
    match try_find_program_address(&seeds, program) {
        Some(p) => Ok(p),
        None => Err(EscrowError::CapabilityDerivationFailure),
    }
}

/// Derives the address of the vault that holds the deposit of the escrow
/// opened with `seed`, with its bump: each escrow has a vault of its own.
pub fn find_vault_address(program: &Address, seed: u64) -> (r: Result<(Address, u8), EscrowError>)
    ensures
        match vault_address_of(program@, seed) {
            Some(p) => r matches Ok(q) && q.0@ == p.0 && q.1 == p.1,
            None => r == Err::<(Address, u8), EscrowError>(EscrowError::CapabilityDerivationFailure),
        },
{
    let seeds: Vec<Vec<u8>> = vec![vault_label_bytes(), to_le_bytes(seed)];
    assert(seeds_view(seeds@) =~= vault_seeds(seed));
    match try_find_program_address(&seeds, program) {
        Some(p) => Ok(p),
        None => Err(EscrowError::CapabilityDerivationFailure),
    }
}

} // verus!
