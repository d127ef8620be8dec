//! Data samples: 24 bits, sent as three bytes with the most significant first.

use vstd::prelude::*;

verus! {

/// The largest value a sample can have.
pub const MAX_SAMPLE: u32 = 0x00FF_FFFF;

/// The sample that three bytes stand for, most significant byte first.
pub open spec fn sample_value(bytes: Seq<u8>) -> u32
    recommends
        bytes.len() == 3,
{
    ((bytes[0] as u32) << 16) | ((bytes[1] as u32) << 8) | (bytes[2] as u32)
}

/// Reassembles a sample from the three bytes the peripheral sent.
pub fn decode_sample(bytes: [u8; 3]) -> (sample: u32)
    ensures
        sample == sample_value(bytes@),
        sample == 65536 * bytes@[0] + 256 * bytes@[1] + bytes@[2],
        sample <= MAX_SAMPLE,
{
    let msb: u8 = bytes[0];
    let csb: u8 = bytes[1];
    let lsb: u8 = bytes[2];
    proof {
        lemma_sample_sum(bytes@);
    }
    ((msb as u32) << 16) | ((csb as u32) << 8) | (lsb as u32)
}

/// A sample is the weighted sum of its bytes, so its top eight bits are zero.
pub proof fn lemma_sample_sum(bytes: Seq<u8>)
    requires
        bytes.len() == 3,
    ensures
        sample_value(bytes) == 65536 * bytes[0] + 256 * bytes[1] + bytes[2],
        sample_value(bytes) <= MAX_SAMPLE,
{
    let msb: u8 = bytes[0];
    let csb: u8 = bytes[1];
    let lsb: u8 = bytes[2];
    assert((((msb as u32) << 16) | ((csb as u32) << 8) | (lsb as u32)) == 65536 * (msb as u32) + 256
        * (csb as u32) + (lsb as u32)) by (bit_vector);
}

/// Each byte keeps its place: two byte triples give the same sample only if
/// they are the same triple.
pub proof fn lemma_sample_injective(first: Seq<u8>, second: Seq<u8>)
    requires
        first.len() == 3,
        second.len() == 3,
        sample_value(first) == sample_value(second),
    ensures
        first == second,
{
    lemma_sample_sum(first);
    lemma_sample_sum(second);
    assert(first =~= second);
}

} // verus!
