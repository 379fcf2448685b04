//! Fixed-layout binary encoding of the counter record.
//!
//! The wire layout is fixed and unversioned: 32 bytes of authority identity,
//! 8 bytes of count (little-endian), 1 byte of bump; 41 bytes in all. The
//! encoded size is also the exact allocation size of the backing storage
//! account. Decoding validates only the shape of the buffer; semantic checks
//! (derivation, authorization) are the handlers' job.

use crate::error::CounterError;
use vstd::bytes::{
    lemma_auto_spec_u64_to_from_le_bytes, spec_u64_from_le_bytes, spec_u64_to_le_bytes,
    u64_from_le_bytes, u64_to_le_bytes,
};
use vstd::prelude::*;
use vstd::slice::slice_subrange;

verus! {

/// Exact encoded size of a counter record, and the exact size of its
/// backing storage account.
pub const COUNTER_LEN: usize = 41;

/// The counter record: the sole persistent entity.
pub struct Counter {
    /// Identity of the owning principal (32 bytes).
    pub authority: Vec<u8>,
    /// Current value of the counter.
    pub count: u64,
    /// Disambiguation byte from address derivation, stored so verifiers can
    /// re-check the derivation cheaply. Immutable once set at Init.
    pub bump: u8,
}

/// Mathematical model of a counter record.
pub struct CounterV {
    pub authority: Seq<u8>,
    pub count: u64,
    pub bump: u8,
}

impl View for Counter {
    type V = CounterV;

    open spec fn view(&self) -> CounterV {
        CounterV { authority: self.authority@, count: self.count, bump: self.bump }
    }
}

impl CounterV {
    /// A well-formed record carries a full-width authority identity.
    pub open spec fn wf(self) -> bool {
        self.authority.len() == 32
    }
}

/// The 41-byte wire image of a record: authority, then count little-endian,
/// then bump, with no padding.
pub open spec fn spec_encode(c: CounterV) -> Seq<u8> {
    c.authority + spec_u64_to_le_bytes(c.count) + seq![c.bump]
}

/// The record read back from a wire image: defined exactly on buffers of the
/// fixed length, undefined (`None`) on every other length.
pub open spec fn spec_decode(s: Seq<u8>) -> Option<CounterV> {
    if s.len() == COUNTER_LEN {
        Some(
            CounterV {
                authority: s.subrange(0, 32),
                count: spec_u64_from_le_bytes(s.subrange(32, 40)),
                bump: s[40],
            },
        )
    } else {
        None
    }
}

/// A well-formed record always encodes to exactly the fixed length.
pub proof fn lemma_encode_len(c: CounterV)
    requires
        c.wf(),
    ensures
        spec_encode(c).len() == COUNTER_LEN,
{
    lemma_auto_spec_u64_to_from_le_bytes();
}

/// Decoding inverts encoding: for every well-formed record `c`,
/// `spec_decode(spec_encode(c)) == Some(c)`.
pub proof fn lemma_codec_round_trip(c: CounterV)
    requires
        c.wf(),
    ensures
        spec_decode(spec_encode(c)) == Some(c),
{
    lemma_auto_spec_u64_to_from_le_bytes();
    let s = spec_encode(c);
    assert(s.subrange(0, 32) =~= c.authority);
    assert(s.subrange(32, 40) =~= spec_u64_to_le_bytes(c.count));
    assert(spec_decode(s) matches Some(d) && d.authority =~= c.authority);
}

/// Serialize a record into its exact 41-byte wire image.
pub fn encode(c: &Counter) -> (r: Vec<u8>)
    requires
        c@.wf(),
    ensures
        r@ == spec_encode(c@),
        r@.len() == COUNTER_LEN,
{
    proof {
        lemma_encode_len(c@);
    }
    let mut out: Vec<u8> = Vec::new();
    let mut i: usize = 0;
    while i < c.authority.len()
        invariant
            i <= c.authority.len(),
            out@ =~= c.authority@.subrange(0, i as int),
        decreases c.authority.len() - i,
    {
        out.push(c.authority[i]);
        i = i + 1;
    }
    assert(out@ =~= c@.authority);
    let count_bytes = u64_to_le_bytes(c.count);
    let mut j: usize = 0;
    while j < count_bytes.len()
        invariant
            j <= count_bytes.len(),
            count_bytes@ == spec_u64_to_le_bytes(c.count),
            count_bytes@.len() == 8,
            out@ =~= c@.authority + count_bytes@.subrange(0, j as int),
        decreases count_bytes.len() - j,
    {
        out.push(count_bytes[j]);
        j = j + 1;
    }
    out.push(c.bump);
    assert(out@ =~= spec_encode(c@));
    out
}

/// Deserialize a wire image back into a record. Succeeds exactly on buffers
/// of the fixed length; any other length is malformed state.
pub fn decode(data: &Vec<u8>) -> (r: Result<Counter, CounterError>)
    ensures
        match r {
            Ok(c) => spec_decode(data@) == Some(c@) && c@.wf(),
            Err(e) => e == CounterError::MalformedState && spec_decode(data@) is None,
        },
{
    if data.len() != COUNTER_LEN {
        return Err(CounterError::MalformedState);
    }
    let mut authority: Vec<u8> = Vec::new();
    let mut i: usize = 0;
    while i < 32
        invariant
            i <= 32,
            data@.len() == COUNTER_LEN,
            authority@ =~= data@.subrange(0, i as int),
        decreases 32 - i,
    {
        authority.push(data[i]);
        i = i + 1;
    }
    assert(authority@ =~= data@.subrange(0, 32));
    let count_slice = slice_subrange(data.as_slice(), 32, 40);
    let count = u64_from_le_bytes(count_slice);
    let bump = data[40];
    let c = Counter { authority, count, bump };
    assert(c@ =~= spec_decode(data@).unwrap());
    Ok(c)
}

} // verus!
