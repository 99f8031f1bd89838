//! Byte-level encodings of the result record.
//!
//! The attested payload is three consecutive 4-byte big-endian unsigned
//! integers: `vote_id`, `votes_for`, `votes_against` — exactly 12 bytes, no
//! padding and no length prefix. The tally value read back from the engine
//! uses the opposite convention: a 4-byte little-endian unsigned integer.

use vstd::prelude::*;

use crate::state::VoteResult;

verus! {

/// Big-endian byte sequence of a 32-bit unsigned integer: most significant
/// byte first.
pub open spec fn u32_to_be_bytes(x: u32) -> Seq<u8> {
    seq![
        (x >> 24) as u8,
        ((x >> 16) & 0xff) as u8,
        ((x >> 8) & 0xff) as u8,
        (x & 0xff) as u8,
    ]
}

/// The 32-bit unsigned integer denoted by four big-endian bytes.
pub open spec fn u32_from_be_bytes(s: Seq<u8>) -> u32
    recommends
        s.len() == 4,
{
    ((s[0] as u32) << 24) | ((s[1] as u32) << 16) | ((s[2] as u32) << 8) | (s[3] as u32)
}

/// The 32-bit unsigned integer denoted by four little-endian bytes, the
/// layout in which the engine exposes a declassified tally.
pub open spec fn u32_from_le_bytes(s: Seq<u8>) -> u32
    recommends
        s.len() == 4,
{
    (s[0] as u32) | ((s[1] as u32) << 8) | ((s[2] as u32) << 16) | ((s[3] as u32) << 24)
}

/// The attested serialization of a result record: `vote_id`, `votes_for`,
/// `votes_against`, each as 4 big-endian bytes.
pub open spec fn result_be_bytes(result: VoteResult) -> Seq<u8> {
    u32_to_be_bytes(result.vote_id) + u32_to_be_bytes(result.votes_for) + u32_to_be_bytes(
        result.votes_against,
    )
}

/// Decoding four big-endian bytes undoes the encoding.
pub proof fn lemma_u32_be_round_trip(x: u32)
    ensures
        u32_to_be_bytes(x).len() == 4,
        u32_from_be_bytes(u32_to_be_bytes(x)) == x,
{
    assert(((x >> 24) as u8) as u32 == x >> 24 && (((x >> 16) & 0xff) as u8) as u32 == (x >> 16)
        & 0xff && (((x >> 8) & 0xff) as u8) as u32 == (x >> 8) & 0xff && ((x & 0xff) as u8) as u32
        == x & 0xff) by (bit_vector);
    assert(((x >> 24) << 24) | (((x >> 16) & 0xff) << 16) | (((x >> 8) & 0xff) << 8) | (x & 0xff)
        == x) by (bit_vector);
}

fn push_u32_be(out: &mut Vec<u8>, x: u32)
    ensures
        final(out)@ == old(out)@ + u32_to_be_bytes(x),
{
    out.push((x >> 24) as u8);
    out.push(((x >> 16) & 0xff) as u8);
    out.push(((x >> 8) & 0xff) as u8);
    out.push((x & 0xff) as u8);
    assert(out@ =~= old(out)@ + u32_to_be_bytes(x));
}

/// Serialize a result record into the 12-byte big-endian payload that the
/// signing parties attest.
pub fn serialize_result_as_big_endian(result: &VoteResult) -> (out: Vec<u8>)
    ensures
        out@ == result_be_bytes(*result),
        out@.len() == 12,
{
    let mut out: Vec<u8> = Vec::new();
    push_u32_be(&mut out, result.vote_id);
    push_u32_be(&mut out, result.votes_for);
    push_u32_be(&mut out, result.votes_against);
    assert(out@ =~= result_be_bytes(*result));
    out
}

fn u32_from_be(b0: u8, b1: u8, b2: u8, b3: u8) -> (x: u32)
    ensures
        x == u32_from_be_bytes(seq![b0, b1, b2, b3]),
{
    ((b0 as u32) << 24) | ((b1 as u32) << 16) | ((b2 as u32) << 8) | (b3 as u32)
}

/// Decode a 12-byte big-endian payload back into the result record it
/// serializes; the proof field is not part of the payload, so it comes back
/// unset. Payloads of any other length are refused.
pub fn decode_result_from_big_endian(bytes: &Vec<u8>) -> (r: Option<VoteResult>)
    ensures
        match r {
            Some(result) => {
                &&& bytes@.len() == 12
                &&& result.vote_id == u32_from_be_bytes(bytes@.subrange(0, 4))
                &&& result.votes_for == u32_from_be_bytes(bytes@.subrange(4, 8))
                &&& result.votes_against == u32_from_be_bytes(bytes@.subrange(8, 12))
                &&& result.proof is None
            },
            None => bytes@.len() != 12,
        },
{
    if bytes.len() != 12 {
        return None;
    }
    let vote_id = u32_from_be(bytes[0], bytes[1], bytes[2], bytes[3]);
    let votes_for = u32_from_be(bytes[4], bytes[5], bytes[6], bytes[7]);
    let votes_against = u32_from_be(bytes[8], bytes[9], bytes[10], bytes[11]);
    assert(bytes@.subrange(0, 4) =~= seq![bytes@[0], bytes@[1], bytes@[2], bytes@[3]]);
    assert(bytes@.subrange(4, 8) =~= seq![bytes@[4], bytes@[5], bytes@[6], bytes@[7]]);
    assert(bytes@.subrange(8, 12) =~= seq![bytes@[8], bytes@[9], bytes@[10], bytes@[11]]);
    Some(VoteResult { vote_id, votes_for, votes_against, proof: None })
}

/// Decoding the attested serialization of a result record per its documented
/// layout recovers the exact `vote_id`, `votes_for` and `votes_against`.
pub proof fn lemma_result_serialization_round_trip(result: VoteResult)
    ensures
        result_be_bytes(result).len() == 12,
        u32_from_be_bytes(result_be_bytes(result).subrange(0, 4)) == result.vote_id,
        u32_from_be_bytes(result_be_bytes(result).subrange(4, 8)) == result.votes_for,
        u32_from_be_bytes(result_be_bytes(result).subrange(8, 12)) == result.votes_against,
{
    let s = result_be_bytes(result);
    assert(s.subrange(0, 4) =~= u32_to_be_bytes(result.vote_id));
    assert(s.subrange(4, 8) =~= u32_to_be_bytes(result.votes_for));
    assert(s.subrange(8, 12) =~= u32_to_be_bytes(result.votes_against));
    lemma_u32_be_round_trip(result.vote_id);
    lemma_u32_be_round_trip(result.votes_for);
    lemma_u32_be_round_trip(result.votes_against);
}

} // verus!
