use vstd::prelude::*;
use anchor_lang::prelude::Pubkey;

verus! {

/// A 32-byte ledger identity: an account, a mint, a program or a signer.
#[derive(Clone, Copy, Debug)]
pub struct Address {
    pub bytes: [u8; 32],
}

impl View for Address {
    type V = Seq<u8>;

    open spec fn view(&self) -> Seq<u8> {
        self.bytes@
    }
}

impl Address {
    pub fn new(bytes: [u8; 32]) -> (r: Address)
        ensures
            r@ == bytes@,
    {
        Address { bytes }
    }

    /// Byte-wise comparison of two identities.
    pub fn same(&self, other: &Address) -> (r: bool)
        ensures
            r == (self@ == other@),
    {
        let mut i: usize = 0;
        while i < 32
            invariant
                i <= 32,
                self@.len() == 32,
                other@.len() == 32,
                forall|j: int| 0 <= j < i ==> self@[j] == other@[j],
            decreases 32 - i,
        {
            if self.bytes[i] != other.bytes[i] {
                return false;
            }
            i = i + 1;
        }
        assert(self@ =~= other@);
        true
    }
}

impl PartialEq for Address {
    fn eq(&self, other: &Address) -> (r: bool) {
        self.same(other)
    }
}

impl vstd::std_specs::cmp::PartialEqSpecImpl for Address {
    open spec fn obeys_eq_spec() -> bool {
        true
    }

    open spec fn eq_spec(&self, other: &Address) -> bool {
        self@ == other@
    }
}

impl Eq for Address {}

/// What `Pubkey::try_find_program_address` yields for the given seeds and
/// program: the first off-curve address found by trying bump seeds from 255
/// downwards, with that bump.
pub uninterp spec fn found_program_address(seeds: Seq<Seq<u8>>, program: Seq<u8>) -> Option<(Seq<u8>, u8)>;

/// What `Pubkey::create_program_address` yields for the given seeds and
/// program: the address, or nothing where the hash is a curve point or the
/// seeds are out of bounds.
pub uninterp spec fn created_program_address(seeds: Seq<Seq<u8>>, program: Seq<u8>) -> Option<Seq<u8>>;

/// Whether the 32 bytes decompress to a point of the ed25519 curve, that is
/// whether a signing key could stand behind them.
pub uninterp spec fn on_curve(key: Seq<u8>) -> bool;

/// Most seeds a derivation takes, the bump seed included.
pub const MAX_SEEDS: usize = 16;

/// Longest single seed of a derivation.
pub const MAX_SEED_LEN: usize = 32;

pub open spec fn seeds_view(seeds: Seq<Vec<u8>>) -> Seq<Seq<u8>> {
    seeds.map_values(|s: Vec<u8>| s@)
}

pub open spec fn seeds_in_bounds(seeds: Seq<Seq<u8>>) -> bool {
    &&& seeds.len() <= MAX_SEEDS
    &&& forall|i: int| 0 <= i < seeds.len() ==> #[trigger] seeds[i].len() <= MAX_SEED_LEN
}

/// Relies on `Pubkey::try_find_program_address`: its result depends on the
/// seeds and the program alone; an address it returns is what
/// `create_program_address` gives for the seeds with the bump appended, and
/// is not a curve point.
#[verifier::external_body]
pub(crate) fn try_find_program_address(seeds: &Vec<Vec<u8>>, program: &Address) -> (r: Option<(Address, u8)>)
    ensures
        match r {
            Some(p) => {
                &&& found_program_address(seeds_view(seeds@), program@) == Some((p.0@, p.1))
                &&& created_program_address(seeds_view(seeds@).push(seq![p.1]), program@) == Some(p.0@)
                &&& !on_curve(p.0@)
            },
            None => found_program_address(seeds_view(seeds@), program@) == None::<(Seq<u8>, u8)>,
        },
{
    let s: Vec<&[u8]> = seeds.iter().map(|v| v.as_slice()).collect();
    Pubkey::try_find_program_address(&s, &Pubkey::new_from_array(program.bytes))
        .map(|(k, b)| (Address { bytes: k.to_bytes() }, b))
}

/// Relies on `Pubkey::create_program_address`: its result depends on the
/// seeds and the program alone, it refuses seeds out of bounds, and an
/// address it returns is not a curve point.
#[verifier::external_body]
pub(crate) fn create_program_address(seeds: &Vec<Vec<u8>>, program: &Address) -> (r: Option<Address>)
    ensures
        match r {
            Some(a) => {
                &&& created_program_address(seeds_view(seeds@), program@) == Some(a@)
                &&& !on_curve(a@)
            },
            None => created_program_address(seeds_view(seeds@), program@) == None::<Seq<u8>>,
        },
        !seeds_in_bounds(seeds_view(seeds@)) ==> r is None,
{
    let s: Vec<&[u8]> = seeds.iter().map(|v| v.as_slice()).collect();
    Pubkey::create_program_address(&s, &Pubkey::new_from_array(program.bytes)).ok().map(
        |k| Address { bytes: k.to_bytes() },
    )
}

} // verus!
