//! Addresses and their deterministic derivation from a tag and inputs.
use vstd::prelude::*;
use solana_program::pubkey::Pubkey;
use vstd::string::{StrSliceExecFns, StringSliceAdditionalSpecFns};

verus! {

/// A 32-byte ledger address.
#[derive(Clone, Copy, Debug, PartialEq, Eq)]
pub struct Address {
    pub bytes: [u8; 32],
}

impl View for Address {
    type V = Seq<u8>;

    open spec fn view(&self) -> Seq<u8> {
        self.bytes@
    }
}

/// What the derivation of a program address returns for the given seeds and
/// program: the address's bytes and the bump byte, or nothing where no bump
/// yields an address off the curve (or the seeds are too many or too long).
pub uninterp spec fn program_address_of(seeds: Seq<Seq<u8>>, program: Seq<u8>) -> Option<(Seq<u8>, u8)>;

/// The seeds' contents as a sequence of byte sequences.
pub open spec fn seeds_view(seeds: Seq<Vec<u8>>) -> Seq<Seq<u8>> {
    seeds.map_values(|s: Vec<u8>| s@)
}

/// Relies on `Pubkey::try_find_program_address`: it searches the bump from
/// 255 downwards and returns the first address off the curve, a function of
/// the seeds and the program id alone; `None` when no bump fits or the seeds
/// break the length limits.
#[verifier::external_body]
fn try_find_program_address(seeds: &Vec<Vec<u8>>, program_id: &Address) -> (r: Option<(Address, u8)>)
    ensures
        match r {
            Some((a, b)) => program_address_of(seeds_view(seeds@), program_id@) == Some((a@, b)),
            None => program_address_of(seeds_view(seeds@), program_id@) is None,
        },
{
    let refs: Vec<&[u8]> = seeds.iter().map(|s| s.as_slice()).collect();
    Pubkey::try_find_program_address(&refs, &Pubkey::new_from_array(program_id.bytes))
        .map(|(k, b)| (Address { bytes: k.to_bytes() }, b))
}

/// Compares two addresses byte by byte.
pub fn same_address(a: &Address, b: &Address) -> (r: bool)
    ensures
        r == (a@ == b@),
{
    let mut i: usize = 0;
    while i < 32
        invariant
            i <= 32,
            forall|j: int| 0 <= j < i ==> a@[j] == b@[j],
        decreases 32 - i,
    {
        if a.bytes[i] != b.bytes[i] {
            return false;
        }
        i = i + 1;
    }
    assert(a@ =~= b@);
    true
}

/// The seeds of a derived address: the tag's bytes, then each input's bytes.
pub open spec fn tagged_seeds(tag: Seq<u8>, inputs: Seq<Address>) -> Seq<Seq<u8>> {
    seq![tag] + inputs.map_values(|a: Address| a@)
}

/// The address and bump derived from a tag and inputs under a program.
pub open spec fn derived_address(tag: Seq<u8>, inputs: Seq<Address>, program: Address) -> Option<(Seq<u8>, u8)> {
    program_address_of(tagged_seeds(tag, inputs), program@)
}

/// Whether `addr` is the address derived from the tag and inputs.
pub open spec fn is_derived(addr: Address, tag: Seq<u8>, inputs: Seq<Address>, program: Address) -> bool {
    match derived_address(tag, inputs, program) {
        Some((a, _)) => a == addr@,
        None => false,
    }
}

/// The bytes of an address as a vector.
pub fn address_bytes(a: &Address) -> (r: Vec<u8>)
    ensures
        r@ == a@,
{
    let mut r: Vec<u8> = Vec::new();
    let mut i: usize = 0;
    while i < 32
        invariant
            i <= 32,
            r@ == a@.subrange(0, i as int),
        decreases 32 - i,
    {
        r.push(a.bytes[i]);
        i = i + 1;
    }
    assert(r@ =~= a@);
    r
}

/// Derives the address and bump for a tag and inputs under `program_id`.
pub fn find_program_address(tag: &str, inputs: &Vec<Address>, program_id: &Address) -> (r: Option<(Address, u8)>)
    ensures
        match r {
            Some((a, b)) => derived_address(tag.spec_bytes(), inputs@, *program_id) == Some((a@, b)),
            None => derived_address(tag.spec_bytes(), inputs@, *program_id) is None,
        },
{
    let mut seeds: Vec<Vec<u8>> = Vec::new();
    seeds.push(tag.as_bytes_vec());
    let mut i: usize = 0;
    while i < inputs.len()
        invariant
            i <= inputs@.len(),
            seeds_view(seeds@) =~= tagged_seeds(tag.spec_bytes(), inputs@.subrange(0, i as int)),
        decreases inputs@.len() - i,
    {
        let b = address_bytes(&inputs[i]);
        let ghost before = seeds@;
        seeds.push(b);
        assert(seeds_view(seeds@) =~= seeds_view(before).push(inputs@[i as int]@));
        assert(inputs@.subrange(0, i + 1).map_values(|a: Address| a@) =~= inputs@.subrange(
            0,
            i as int,
        ).map_values(|a: Address| a@).push(inputs@[i as int]@));
        assert(seeds_view(seeds@) =~= tagged_seeds(tag.spec_bytes(), inputs@.subrange(0, i + 1)));
        i = i + 1;
    }
    assert(inputs@.subrange(0, inputs@.len() as int) =~= inputs@);
    try_find_program_address(&seeds, program_id)
}

/// Checks that `addr` is the address derived from the tag and inputs.
pub fn check_derived(addr: &Address, tag: &str, inputs: &Vec<Address>, program_id: &Address) -> (r: bool)
    ensures
        r == is_derived(*addr, tag.spec_bytes(), inputs@, *program_id),
{
    match find_program_address(tag, inputs, program_id) {
        Some((a, _)) => same_address(&a, addr),
        None => false,
    }
}

/// Derivation is a pure function: two derivations from the same tag, inputs
/// and program agree on the address and on the bump.
pub proof fn lemma_derivation_deterministic(
    tag: Seq<u8>,
    inputs: Seq<Address>,
    program: Address,
    first: Option<(Seq<u8>, u8)>,
    second: Option<(Seq<u8>, u8)>,
)
    requires
        first == derived_address(tag, inputs, program),
        second == derived_address(tag, inputs, program),
    ensures
        first == second,
{
}

} // verus!
