//! Identities and derived sub-account addresses.

use vstd::prelude::*;

verus! {

/// A 32-byte identity on the source ledger: a user, the administrator, a
/// program, or an account derived from one.
#[derive(Clone, Copy, Debug, PartialEq, Eq)]
pub struct Address {
    pub bytes: [u8; 32],
}

impl View for Address {
    type V = Seq<u8>;

    open spec fn view(&self) -> Seq<u8> {
        self.bytes@
    }
}

/// Every byte of `bytes` is zero.
pub open spec fn all_zero(bytes: Seq<u8>) -> bool {
    forall|i: int| 0 <= i < bytes.len() ==> bytes[i] == 0
}

impl Address {
    /// The identity with these bytes.
    pub fn new(bytes: [u8; 32]) -> (address: Address)
        ensures
            address.bytes == bytes,
    {
        Address { bytes }
    }

    /// The bytes of this identity.
    pub fn to_bytes(&self) -> (bytes: [u8; 32])
        ensures
            bytes == self.bytes,
    {
        self.bytes
    }

    /// Whether two identities are the same one.
    pub fn same(&self, other: &Address) -> (equal: bool)
        ensures
            equal == (*self == *other),
            equal == (self@ == other@),
    {
        let mut i: usize = 0;
        while i < 32
            invariant
                i <= 32,
                forall|j: int| 0 <= j < i ==> self.bytes[j] == other.bytes[j],
            decreases 32 - i,
        {
            if self.bytes[i] != other.bytes[i] {
                return false;
            }
            i += 1;
        }
        assert(self.bytes =~= other.bytes);
        true
    }

    /// Whether this is the all-zero identity, which nobody holds.
    pub fn is_zero(&self) -> (zero: bool)
        ensures
            zero == all_zero(self@),
    {
        is_all_zero(&self.bytes)
    }
}

/// Whether every byte is zero.
pub fn is_all_zero(bytes: &[u8]) -> (zero: bool)
    ensures
        zero == all_zero(bytes@),
{
    let mut i: usize = 0;
    while i < bytes.len()
        invariant
            i <= bytes@.len(),
            forall|j: int| 0 <= j < i ==> bytes@[j] == 0,
        decreases bytes@.len() - i,
    {
        if bytes[i] != 0 {
            return false;
        }
        i += 1;
    }
    true
}

/// At most this many seeds go into one derivation, the disambiguation byte
/// included.
pub const MAX_SEEDS: usize = 16;

/// No seed is longer than this.
pub const MAX_SEED_LEN: usize = 32;

/// The seeds leave room for the disambiguation byte and none is too long.
pub open spec fn seeds_admissible(seeds: Seq<Seq<u8>>) -> bool {
    &&& seeds.len() < MAX_SEEDS
    &&& forall|i: int| 0 <= i < seeds.len() ==> (#[trigger] seeds[i]).len() <= MAX_SEED_LEN
}

/// The sub-account address that the seeds derive under a parent program, with
/// the disambiguation byte that was found for it, or `None` where no byte
/// gives an address. It is what the ledger's own search computes: a hash of
/// the seeds, a candidate byte and the parent, tried from the highest byte
/// down until the hash is no point of the signature curve.
pub uninterp spec fn program_address(seeds: Seq<Seq<u8>>, parent: Seq<u8>) -> Option<
    (Seq<u8>, u8),
>;

/// What a derivation returned, over plain bytes.
pub open spec fn derived_view(derived: Option<(Address, u8)>) -> Option<(Seq<u8>, u8)> {
    match derived {
        Some((address, bump)) => Some((address@, bump)),
        None => None,
    }
}

/// Calls `Pubkey::try_find_program_address` of `solana-program`, which
/// `anchor-lang` hands on in its prelude. Trusted, not proved: the result is
/// the search's outcome for these seeds and this parent and depends on
/// nothing else, and the search gives up at once where there are sixteen
/// seeds or more, or a seed is longer than thirty-two bytes.
#[verifier::external_body]
fn try_find_program_address(seeds: &Vec<Vec<u8>>, parent: &Address) -> (found: Option<
    (Address, u8),
>)
    ensures
        derived_view(found) == program_address(seeds.deep_view(), parent@),
        !seeds_admissible(seeds.deep_view()) ==> found is None,
{
    let slices: Vec<&[u8]> = seeds.iter().map(|seed| seed.as_slice()).collect();
    let program_id = anchor_lang::prelude::Pubkey::new_from_array(parent.bytes);
    match anchor_lang::prelude::Pubkey::try_find_program_address(&slices, &program_id) {
        Some((key, bump)) => Some((Address { bytes: key.to_bytes() }, bump)),
        None => None,
    }
}

/// Derives the sub-account address that `seeds` name under `parent`, and its
/// disambiguation byte. The same seeds and parent always give the same
/// answer, so an address is never stored: whoever needs it derives it again.
/// `None` means that the derivation cannot be satisfied.
pub fn derive_address(seeds: &Vec<Vec<u8>>, parent: &Address) -> (derived: Option<(Address, u8)>)
    ensures
        derived_view(derived) == program_address(seeds.deep_view(), parent@),
        !seeds_admissible(seeds.deep_view()) ==> derived is None,
{
    try_find_program_address(seeds, parent)
}

/// Derives the account that a single label names under `parent`.
pub fn derive_labelled(label: &[u8], parent: &Address) -> (derived: Option<(Address, u8)>)
    ensures
        derived_view(derived) == program_address(seq![label@], parent@),
{
    let mut seeds: Vec<Vec<u8>> = Vec::new();
    seeds.push(seed_from(label));
    proof {
        assert(seeds.deep_view() =~~= seq![label@]);
    }
    derive_address(&seeds, parent)
}

/// Derives the account that a label and one more seed name under `parent`.
pub fn derive_labelled_with(label: &[u8], seed: &[u8], parent: &Address) -> (derived: Option<
    (Address, u8),
>)
    ensures
        derived_view(derived) == program_address(seq![label@, seed@], parent@),
{
    let mut seeds: Vec<Vec<u8>> = Vec::new();
    seeds.push(seed_from(label));
    seeds.push(seed_from(seed));
    proof {
        assert(seeds.deep_view() =~~= seq![label@, seed@]);
    }
    derive_address(&seeds, parent)
}

/// Two derivations from the same seeds under the same parent agree, so an
/// address that was kept can always be held against one derived afresh.
pub proof fn lemma_derivation_repeats(
    seeds: Seq<Seq<u8>>,
    parent: Seq<u8>,
    first: Option<(Address, u8)>,
    second: Option<(Address, u8)>,
)
    requires
        derived_view(first) == program_address(seeds, parent),
        derived_view(second) == program_address(seeds, parent),
    ensures
        first == second,
{
    if let Some((a, _)) = first {
        if let Some((b, _)) = second {
            assert(a.bytes =~= b.bytes);
        }
    }
}

/// Copies a label or another fixed byte string into a seed.
pub fn seed_from(bytes: &[u8]) -> (seed: Vec<u8>)
    ensures
        seed@ == bytes@,
{
    let mut seed: Vec<u8> = Vec::new();
    let mut i: usize = 0;
    while i < bytes.len()
        invariant
            i <= bytes@.len(),
            seed@ == bytes@.take(i as int),
        decreases bytes@.len() - i,
    {
        seed.push(bytes[i]);
        proof {
            assert(bytes@.take(i as int).push(bytes@[i as int]) =~= bytes@.take(i + 1));
        }
        i += 1;
    }
    proof {
        assert(bytes@.take(bytes@.len() as int) =~= bytes@);
    }
    seed
}

} // verus!
