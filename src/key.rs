use anchor_lang::prelude::Pubkey;
use vstd::prelude::*;

verus! {

/// A 32-byte public key: the identity of an owner, or the address of a
/// stored record.
#[derive(Clone, Copy, Debug, Eq)]
pub struct PublicKey {
    pub bytes: [u8; 32],
}

impl PublicKey {
    pub fn new(bytes: [u8; 32]) -> (r: PublicKey)
        ensures
            r.bytes == bytes,
    {
        PublicKey { bytes }
    }
}

impl PartialEq for PublicKey {
    fn eq(&self, other: &PublicKey) -> (r: bool)
        ensures
            r == (*self == *other),
    {
        let mut i: usize = 0;
        while i < 32
            invariant
                i <= 32,
                forall|j: int| 0 <= j < i ==> self.bytes[j] == other.bytes[j],
            decreases 32 - i,
        {
            if self.bytes[i] != other.bytes[i] {
                return false;
            }
            i = i + 1;
        }
        assert(self.bytes =~= other.bytes);
        true
    }
}

impl vstd::std_specs::cmp::PartialEqSpecImpl for PublicKey {
    open spec fn obeys_eq_spec() -> bool {
        true
    }

    open spec fn eq_spec(&self, other: &PublicKey) -> bool {
        *self == *other
    }
}

/// The namespace tag under which every counter record's address is derived.
pub const COUNTER_SEED: [u8; 7] = [99, 111, 117, 110, 116, 101, 114];

/// The address of the program that owns the counter records.
pub const PROGRAM_ID_BYTES: [u8; 32] = [
    94, 67, 18, 9, 181, 73, 61, 55, 127, 100, 12, 120, 203, 138, 114, 188,
    85, 6, 244, 245, 6, 15, 6, 173, 37, 190, 158, 205, 164, 57, 22, 19,
];

/// What a program-derived-address search gives for these seeds under this
/// program: the address and its bump seed, or nothing when no bump seed
/// yields an address off the curve (or a seed is too long).
pub uninterp spec fn program_address(seeds: Seq<Seq<u8>>, program_id: Seq<u8>) -> Option<([u8; 32], u8)>;

/// The storage key of `owner`'s record under `namespace_tag`, as a key and
/// its bump seed.
pub open spec fn derived_key(namespace_tag: Seq<u8>, owner: PublicKey, program_id: PublicKey) -> Option<(PublicKey, u8)> {
    match program_address(seq![namespace_tag, owner.bytes@], program_id.bytes@) {
        Some((k, bump)) => Some((PublicKey { bytes: k }, bump)),
        None => None,
    }
}

/// Relies on `Pubkey::try_find_program_address`: a deterministic search,
/// over the seeds and the program id alone, for the first bump seed from
/// 255 down to 1 that gives an address off the ed25519 curve; `None` when
/// there is none or a seed is longer than 32 bytes.
#[verifier::external_body]
fn find_program_address(tag: &[u8], owner: &[u8; 32], program_id: &[u8; 32]) -> (r: Option<([u8; 32], u8)>)
    ensures
        r == program_address(seq![tag@, owner@], program_id@),
{
    let program = Pubkey::new_from_array(*program_id);
    match Pubkey::try_find_program_address(&[tag, &owner[..]], &program) {
        Some((address, bump)) => Some((address.to_bytes(), bump)),
        None => None,
    }
}

/// Derives the storage key of `owner`'s record: the same inputs always give
/// the same key.
pub fn derive_key(namespace_tag: &[u8], owner: &PublicKey, program_id: &PublicKey) -> (r: Option<(PublicKey, u8)>)
    ensures
        r == derived_key(namespace_tag@, *owner, *program_id),
{
    match find_program_address(namespace_tag, &owner.bytes, &program_id.bytes) {
        Some((k, bump)) => Some((PublicKey { bytes: k }, bump)),
        None => None,
    }
}

/// Key derivation is deterministic: equal tags, owners and program ids give
/// equal keys.
pub proof fn derive_key_deterministic(
    tag1: Seq<u8>,
    tag2: Seq<u8>,
    owner1: PublicKey,
    owner2: PublicKey,
    program_id: PublicKey,
)
    requires
        tag1 == tag2,
        owner1 == owner2,
    ensures
        derived_key(tag1, owner1, program_id) == derived_key(tag2, owner2, program_id),
{
}

} // verus!
