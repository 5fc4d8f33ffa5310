//! Account addresses and program-derived addresses.

use vstd::prelude::*;

verus! {

/// A 32-byte account address on the destination ledger.
#[derive(Clone, Copy, Debug)]
pub struct Pubkey {
    pub bytes: [u8; 32],
}

impl View for Pubkey {
    type V = Seq<u8>;

    open spec fn view(&self) -> Seq<u8> {
        self.bytes@
    }
}

/// Byte-wise comparison of two slices.
pub fn bytes_equal(a: &[u8], b: &[u8]) -> (r: bool)
    ensures
        r == (a@ == b@),
{
    if a.len() != b.len() {
        return false;
    }
    let mut i: usize = 0;
    while i < a.len()
        invariant
            a@.len() == b@.len(),
            0 <= i <= a@.len(),
            a@.subrange(0, i as int) == b@.subrange(0, i as int),
        decreases a@.len() - i,
    {
        if a[i] != b[i] {
            assert(a@[i as int] != b@[i as int]);
            return false;
        }
        assert(a@.subrange(0, i + 1) == a@.subrange(0, i as int).push(a@[i as int]));
        assert(b@.subrange(0, i + 1) == b@.subrange(0, i as int).push(b@[i as int]));
        i = i + 1;
    }
    assert(a@ == a@.subrange(0, a@.len() as int));
    assert(b@ == b@.subrange(0, b@.len() as int));
    true
}

impl Pubkey {
    pub fn new_from_array(bytes: [u8; 32]) -> (r: Pubkey)
        ensures
            r.bytes == bytes,
    {
        Pubkey { bytes }
    }

    pub fn to_bytes(&self) -> (r: [u8; 32])
        ensures
            r == self.bytes,
    {
        self.bytes
    }

    /// The address as an owned byte vector, as used for a derivation seed.
    pub fn to_vec(&self) -> (r: Vec<u8>)
        ensures
            r@ == self@,
            r@.len() == 32,
    {
        vstd::slice::slice_to_vec(self.bytes.as_slice())
    }
}

impl PartialEq for Pubkey {
    fn eq(&self, other: &Pubkey) -> (r: bool) {
        bytes_equal(self.bytes.as_slice(), other.bytes.as_slice())
    }
}

impl vstd::std_specs::cmp::PartialEqSpecImpl for Pubkey {
    open spec fn obeys_eq_spec() -> bool {
        true
    }

    open spec fn eq_spec(&self, other: &Pubkey) -> bool {
        self@ == other@
    }
}

impl Eq for Pubkey {
}

/// The seeds of a derivation, viewed as byte sequences.
pub open spec fn seeds_view(seeds: Seq<Vec<u8>>) -> Seq<Seq<u8>> {
    seeds.map_values(|s: Vec<u8>| s@)
}

/// The program-derived address (and its bump seed) that the ledger assigns to `seeds`
/// under `program_id`, or `None` where no bump seed yields an address off the curve or the
/// seeds exceed the ledger's limits.
pub uninterp spec fn program_address_of(seeds: Seq<Seq<u8>>, program_id: Seq<u8>) -> Option<([u8; 32], u8)>;

/// Relies on `solana_program::pubkey::Pubkey::try_find_program_address`, which hashes the
/// seeds, each bump seed from 255 down and the program id until the digest lies off the
/// ed25519 curve; its result depends on its arguments alone.
#[verifier::external_body]
fn try_find_program_address(seeds: &Vec<Vec<u8>>, program_id: &Pubkey) -> (r: Option<(Pubkey, u8)>)
    ensures
        match r {
            Some((key, bump)) => program_address_of(seeds_view(seeds@), program_id@) == Some((key.bytes, bump)),
            None => program_address_of(seeds_view(seeds@), program_id@) is None,
        },
{
    let slices: Vec<&[u8]> = seeds.iter().map(|s| s.as_slice()).collect();
    let owner = solana_program::pubkey::Pubkey::new_from_array(program_id.bytes);
    solana_program::pubkey::Pubkey::try_find_program_address(&slices, &owner).map(
        |(key, bump)| (Pubkey::new_from_array(key.to_bytes()), bump),
    )
}

/// Derives the program address for `seeds` under `program_id`.
pub fn find_program_address(seeds: &Vec<Vec<u8>>, program_id: &Pubkey) -> (r: Option<(Pubkey, u8)>)
    ensures
        r is Some <==> program_address_of(seeds_view(seeds@), program_id@) is Some,
        r is Some ==> program_address_of(seeds_view(seeds@), program_id@) == Some((r.unwrap().0.bytes, r.unwrap().1)),
{
    try_find_program_address(seeds, program_id)
}

/// The address derived from the pair `(first, second)` under `owner`: the capability
/// address that the bridge signs for when it writes into `second` through program `first`.
pub open spec fn pair_address(first: Seq<u8>, second: Seq<u8>, owner: Seq<u8>) -> Option<([u8; 32], u8)> {
    program_address_of(seq![first, second], owner)
}

/// Derives the capability address of the pair `(first, second)` under `owner`.
pub fn derive_pair_address(first: &[u8], second: &[u8], owner: &Pubkey) -> (r: Option<(Pubkey, u8)>)
    ensures
        r is Some <==> pair_address(first@, second@, owner@) is Some,
        r is Some ==> pair_address(first@, second@, owner@) == Some((r.unwrap().0.bytes, r.unwrap().1)),
{
    let mut seeds: Vec<Vec<u8>> = Vec::new();
    seeds.push(vstd::slice::slice_to_vec(first));
    seeds.push(vstd::slice::slice_to_vec(second));
    assert(seeds_view(seeds@) =~= seq![first@, second@]);
    try_find_program_address(&seeds, owner)
}

/// Derivation is a function of its inputs: two derivations from the same seeds and owner
/// give the same address and bump seed.
pub proof fn derivation_is_deterministic(
    seeds_a: Seq<Seq<u8>>,
    owner_a: Seq<u8>,
    seeds_b: Seq<Seq<u8>>,
    owner_b: Seq<u8>,
)
    requires
        seeds_a == seeds_b,
        owner_a == owner_b,
    ensures
        program_address_of(seeds_a, owner_a) == program_address_of(seeds_b, owner_b),
{
}

/// The seeds that sign for the address derived from `(first, second)`: both seeds, then
/// the bump seed.
pub fn signer_seeds(first: &[u8], second: &[u8], bump: u8) -> (r: Vec<Vec<u8>>)
    ensures
        seeds_view(r@) == seq![first@, second@, seq![bump]],
{
    let mut seeds: Vec<Vec<u8>> = Vec::new();
    seeds.push(vstd::slice::slice_to_vec(first));
    seeds.push(vstd::slice::slice_to_vec(second));
    let mut last: Vec<u8> = Vec::new();
    last.push(bump);
    assert(last@ =~= seq![bump]);
    seeds.push(last);
    assert(seeds_view(seeds@) =~= seq![first@, second@, seq![bump]]);
    seeds
}

} // verus!
