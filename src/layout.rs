use crate::key::PublicKey;
use crate::record::Counter;
use vstd::bytes::{spec_u64_from_le_bytes, spec_u64_to_le_bytes, u64_from_le_bytes, u64_to_le_bytes};
use vstd::prelude::*;
use vstd::slice::slice_subrange;

verus! {

/// The size of an encoded record: the owner's 32 bytes, then `count`,
/// `total_increments` and `created_at`, eight bytes each, little-endian,
/// with no padding.
pub const INIT_SPACE: usize = 56;

/// The persisted form of a record.
pub open spec fn encoded(c: Counter) -> Seq<u8> {
    c.owner.bytes@ + spec_u64_to_le_bytes(c.count) + spec_u64_to_le_bytes(c.total_increments)
        + spec_u64_to_le_bytes(c.created_at as u64)
}

proof fn lemma_i64_u64_round_trip(x: i64)
    ensures
        (x as u64) as i64 == x,
{
    assert((x as u64) as i64 == x) by (bit_vector);
}

proof fn lemma_u64_i64_round_trip(x: u64)
    ensures
        (x as i64) as u64 == x,
{
    assert((x as i64) as u64 == x) by (bit_vector);
}

/// Two records with the same encoding are the same record, so decoding an
/// encoded record gives it back.
pub proof fn encoding_is_injective(c1: Counter, c2: Counter)
    requires
        encoded(c1) == encoded(c2),
    ensures
        c1 == c2,
{
    vstd::bytes::lemma_auto_spec_u64_to_from_le_bytes();
    let e = encoded(c1);
    assert(e.len() == 56);
    assert(c1.owner.bytes@ == e.subrange(0, 32));
    assert(c2.owner.bytes@ == e.subrange(0, 32));
    assert(c1.owner.bytes =~= c2.owner.bytes);
    assert(spec_u64_to_le_bytes(c1.count) == e.subrange(32, 40));
    assert(spec_u64_to_le_bytes(c2.count) == e.subrange(32, 40));
    assert(spec_u64_to_le_bytes(c1.total_increments) == e.subrange(40, 48));
    assert(spec_u64_to_le_bytes(c2.total_increments) == e.subrange(40, 48));
    assert(spec_u64_to_le_bytes(c1.created_at as u64) == e.subrange(48, 56));
    assert(spec_u64_to_le_bytes(c2.created_at as u64) == e.subrange(48, 56));
    assert(spec_u64_from_le_bytes(spec_u64_to_le_bytes(c1.count)) == c1.count);
    assert(spec_u64_from_le_bytes(spec_u64_to_le_bytes(c2.count)) == c2.count);
    assert(spec_u64_from_le_bytes(spec_u64_to_le_bytes(c1.total_increments)) == c1.total_increments);
    assert(spec_u64_from_le_bytes(spec_u64_to_le_bytes(c2.total_increments)) == c2.total_increments);
    assert(spec_u64_from_le_bytes(spec_u64_to_le_bytes(c1.created_at as u64)) == c1.created_at as u64);
    assert(spec_u64_from_le_bytes(spec_u64_to_le_bytes(c2.created_at as u64)) == c2.created_at as u64);
    lemma_i64_u64_round_trip(c1.created_at);
    lemma_i64_u64_round_trip(c2.created_at);
}

impl Counter {
    /// The record in its persisted layout.
    pub fn to_bytes(&self) -> (r: Vec<u8>)
        ensures
            r@ == encoded(*self),
            r@.len() == INIT_SPACE,
    {
        proof {
            vstd::bytes::lemma_auto_spec_u64_to_from_le_bytes();
        }
        let mut out: Vec<u8> = Vec::new();
        let mut i: usize = 0;
        while i < 32
            invariant
                i <= 32,
                out@ == self.owner.bytes@.subrange(0, i as int),
            decreases 32 - i,
        {
            out.push(self.owner.bytes[i]);
            i = i + 1;
        }
        assert(out@ == self.owner.bytes@);
        let mut count = u64_to_le_bytes(self.count);
        out.append(&mut count);
        let mut total = u64_to_le_bytes(self.total_increments);
        out.append(&mut total);
        let mut created = u64_to_le_bytes(self.created_at as u64);
        out.append(&mut created);
        out
    }

    /// Reads a record from its persisted layout: `None` unless `bytes` is
    /// exactly `INIT_SPACE` long.
    pub fn from_bytes(bytes: &[u8]) -> (r: Option<Counter>)
        ensures
            r is Some <==> bytes@.len() == INIT_SPACE,
            r matches Some(c) ==> encoded(c) == bytes@,
    {
        if bytes.len() != INIT_SPACE {
            return None;
        }
        proof {
            vstd::bytes::lemma_auto_spec_u64_to_from_le_bytes();
        }
        let mut owner: [u8; 32] = [0u8; 32];
        let mut i: usize = 0;
        while i < 32
            invariant
                i <= 32,
                bytes@.len() == INIT_SPACE,
                forall|j: int| 0 <= j < i ==> owner[j] == bytes@[j],
            decreases 32 - i,
        {
            owner[i] = bytes[i];
            i = i + 1;
        }
        let count = u64_from_le_bytes(slice_subrange(bytes, 32, 40));
        let total = u64_from_le_bytes(slice_subrange(bytes, 40, 48));
        let created = u64_from_le_bytes(slice_subrange(bytes, 48, 56));
        let c = Counter {
            owner: PublicKey { bytes: owner },
            count,
            total_increments: total,
            created_at: created as i64,
        };
        proof {
            lemma_u64_i64_round_trip(created);
            assert(owner@ =~= bytes@.subrange(0, 32));
            assert(spec_u64_to_le_bytes(count) == bytes@.subrange(32, 40));
            assert(spec_u64_to_le_bytes(total) == bytes@.subrange(40, 48));
            assert(spec_u64_to_le_bytes(created) == bytes@.subrange(48, 56));
            assert(encoded(c) =~= bytes@);
        }
        Some(c)
    }
}

} // verus!
