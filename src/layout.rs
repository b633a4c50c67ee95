use vstd::prelude::*;
use vstd::bytes::{
    lemma_auto_spec_u64_to_from_le_bytes, spec_u64_to_le_bytes, u64_from_le_bytes,
    u64_to_le_bytes,
};
use crate::identity::{Identity, IDENTITY_LEN};
use crate::record::Airdrop;

verus! {

/// Bytes of the account-type tag that precedes the record's fields.
pub const DISCRIMINATOR_LEN: usize = 8;

/// Bytes of a stored record: tag, authority, amount, claimed flag.
pub const RECORD_SPACE: usize = 8 + 32 + 8 + 1;

/// Where the amount starts in a stored record.
const AMOUNT_OFFSET: usize = 40;

/// Where the claimed flag stands in a stored record.
const FLAG_OFFSET: usize = 48;

/// The byte that stores a flag.
pub open spec fn flag_byte(b: bool) -> u8 {
    if b {
        1
    } else {
        0
    }
}

/// The stored form of `rec` under the tag `tag`: the tag, the 32 bytes of
/// the authority, the amount in little-endian order, then the flag byte.
pub open spec fn layout(tag: Seq<u8>, rec: Airdrop) -> Seq<u8> {
    tag + rec.authority@ + spec_u64_to_le_bytes(rec.amount) + seq![flag_byte(rec.claimed)]
}

/// Copies `data[start..start + N]` into an array.
fn read_array<const N: usize>(data: &[u8], start: usize) -> (r: [u8; N])
    requires
        start + N <= data@.len(),
    ensures
        r@ == data@.subrange(start as int, start + N),
{
    let mut r = [0u8; N];
    let len = data.len();
    let mut i: usize = 0;
    while i < N
        invariant
            len == data@.len(),
            start + N <= data@.len(),
            0 <= i <= N,
            r@.len() == N,
            forall|j: int| 0 <= j < i ==> r@[j] == data@[start + j],
        decreases N - i,
    {
        r[i] = data[start + i];
        i = i + 1;
    }
    proof {
        assert(r@ =~= data@.subrange(start as int, start + N));
    }
    r
}

impl Airdrop {
    /// The record's stored form, preceded by `discriminator`.
    pub fn encode(&self, discriminator: &[u8; 8]) -> (r: Vec<u8>)
        ensures
            r@ == layout(discriminator@, *self),
            r@.len() == RECORD_SPACE,
    {
        proof {
            lemma_auto_spec_u64_to_from_le_bytes();
        }
        let mut out: Vec<u8> = Vec::new();
        let mut i: usize = 0;
        while i < DISCRIMINATOR_LEN
            invariant
                0 <= i <= DISCRIMINATOR_LEN,
                out@ == discriminator@.subrange(0, i as int),
            decreases DISCRIMINATOR_LEN - i,
        {
            out.push(discriminator[i]);
            i = i + 1;
        }
        let mut k: usize = 0;
        while k < IDENTITY_LEN
            invariant
                0 <= k <= IDENTITY_LEN,
                out@ == discriminator@ + self.authority@.subrange(0, k as int),
            decreases IDENTITY_LEN - k,
        {
            out.push(self.authority.bytes[k]);
            proof {
                assert(self.authority@.subrange(0, k + 1) =~= self.authority@.subrange(
                    0,
                    k as int,
                ).push(self.authority@[k as int]));
            }
            k = k + 1;
        }
        proof {
            assert(self.authority@.subrange(0, 32) =~= self.authority@);
        }
        let mut amount = u64_to_le_bytes(self.amount);
        out.append(&mut amount);
        out.push(if self.claimed {
            1u8
        } else {
            0u8
        });
        out
    }

    /// Reads a stored record back, with its tag. Fails unless `data` is
    /// exactly one record long and its flag byte is 0 or 1.
    pub fn decode(data: &[u8]) -> (r: Option<([u8; 8], Airdrop)>)
        ensures
            r is Some <==> data@.len() == RECORD_SPACE && data@[48] <= 1,
            r matches Some(v) ==> layout(v.0@, v.1) == data@,
    {
        if data.len() != RECORD_SPACE || data[FLAG_OFFSET] > 1 {
            return None;
        }
        proof {
            lemma_auto_spec_u64_to_from_le_bytes();
        }
        let tag: [u8; 8] = read_array(data, 0);
        let key: [u8; 32] = read_array(data, DISCRIMINATOR_LEN);
        let amount_bytes: [u8; 8] = read_array(data, AMOUNT_OFFSET);
        let amount = u64_from_le_bytes(vstd::array::array_as_slice(&amount_bytes));
        let rec = Airdrop {
            authority: Identity::new(key),
            amount,
            claimed: data[FLAG_OFFSET] == 1,
        };
        proof {
            assert(spec_u64_to_le_bytes(amount) == amount_bytes@);
            assert(layout(tag@, rec) =~= data@);
        }
        Some((tag, rec))
    }
}

/// A stored record determines its tag and its record: whatever `encode`
/// wrote, `decode` reads back the same tag and the same record.
pub proof fn lemma_layout_determines_record(t1: [u8; 8], r1: Airdrop, t2: [u8; 8], r2: Airdrop)
    requires
        layout(t1@, r1) == layout(t2@, r2),
    ensures
        t1 == t2,
        r1 == r2,
{
    lemma_auto_spec_u64_to_from_le_bytes();
    let s = layout(t1@, r1);
    assert(t1@ =~= s.subrange(0, 8));
    assert(t2@ =~= s.subrange(0, 8));
    assert(r1.authority@ =~= s.subrange(8, 40));
    assert(r2.authority@ =~= s.subrange(8, 40));
    assert(spec_u64_to_le_bytes(r1.amount) =~= s.subrange(40, 48));
    assert(spec_u64_to_le_bytes(r2.amount) =~= s.subrange(40, 48));
    assert(s[48] == flag_byte(r1.claimed));
    assert(t1 =~= t2);
    assert(r1.authority.bytes =~= r2.authority.bytes);
}

} // verus!
