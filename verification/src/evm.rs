//! Formatting of attestation signatures into the portable proof string.
//!
//! Each per-party signature is rendered as an EVM-style compact signature:
//! `"0x"`, then 64 lowercase hex characters of the r value, 64 of the s
//! value, and 2 of the recovery id plus 27 (the EVM expects 0x1b or 0x1c
//! where the signing parties report 0 or 1) — 132 characters in all. The
//! proof string joins the rendered signatures, in the order the engine
//! reports them, as `"[sig0, sig1, ...]"`.

use vstd::prelude::*;
use vstd::string::StrSliceExecFns;
use vstd::string::StringExecFns;

use crate::state::Signature;

verus! {

/// Lowercase hexadecimal character of a value below 16.
pub open spec fn hex_digit(n: u8) -> char
    recommends
        n < 16,
{
    if n == 0 {
        '0'
    } else if n == 1 {
        '1'
    } else if n == 2 {
        '2'
    } else if n == 3 {
        '3'
    } else if n == 4 {
        '4'
    } else if n == 5 {
        '5'
    } else if n == 6 {
        '6'
    } else if n == 7 {
        '7'
    } else if n == 8 {
        '8'
    } else if n == 9 {
        '9'
    } else if n == 10 {
        'a'
    } else if n == 11 {
        'b'
    } else if n == 12 {
        'c'
    } else if n == 13 {
        'd'
    } else if n == 14 {
        'e'
    } else {
        'f'
    }
}

/// Two hex characters of a byte, zero-padded: high nibble first.
pub open spec fn hex_byte(b: u8) -> Seq<char> {
    seq![hex_digit(b / 16), hex_digit(b % 16)]
}

/// Hex characters of a byte sequence, two per byte, in byte order.
pub open spec fn hex_bytes(bs: Seq<u8>) -> Seq<char>
    decreases bs.len(),
{
    if bs.len() == 0 {
        Seq::empty()
    } else {
        hex_bytes(bs.drop_last()) + hex_byte(bs.last())
    }
}

pub proof fn lemma_hex_bytes_len(bs: Seq<u8>)
    ensures
        hex_bytes(bs).len() == 2 * bs.len(),
    decreases bs.len(),
{
    if bs.len() > 0 {
        lemma_hex_bytes_len(bs.drop_last());
    }
}

/// A signature whose recovery id is one of the two values the signing
/// parties report.
pub open spec fn valid_signature(sig: Signature) -> bool {
    sig.recovery_id <= 1
}

/// All signatures in the sequence are valid.
pub open spec fn valid_signatures(sigs: Seq<Signature>) -> bool {
    forall|i: int| 0 <= i < sigs.len() ==> valid_signature(#[trigger] sigs[i])
}

/// The EVM-style rendering of one signature: `0x`, r, s, recovery id + 27.
pub open spec fn evm_signature_chars(sig: Signature) -> Seq<char> {
    seq!['0', 'x'] + hex_bytes(sig.value_r@) + hex_bytes(sig.value_s@) + hex_byte(
        (sig.recovery_id + 27) as u8,
    )
}

/// Each rendered signature is exactly 132 characters, the `0x` prefix
/// included.
pub proof fn lemma_evm_signature_len(sig: Signature)
    ensures
        evm_signature_chars(sig).len() == 132,
{
    lemma_hex_bytes_len(sig.value_r@);
    lemma_hex_bytes_len(sig.value_s@);
}

/// The rendered signatures joined by `", "`, without the brackets.
pub open spec fn proof_inner_chars(sigs: Seq<Signature>) -> Seq<char>
    decreases sigs.len(),
{
    if sigs.len() == 0 {
        Seq::empty()
    } else if sigs.len() == 1 {
        evm_signature_chars(sigs[0])
    } else {
        proof_inner_chars(sigs.drop_last()) + seq![',', ' '] + evm_signature_chars(sigs.last())
    }
}

/// The whole proof string: the joined signatures between `[` and `]`,
/// preserving the order the engine reported.
pub open spec fn proof_chars(sigs: Seq<Signature>) -> Seq<char> {
    seq!['['] + proof_inner_chars(sigs) + seq![']']
}

/// The hex character of a value below 16, as a one-character string.
fn hex_digit_str(n: u8) -> (s: &'static str)
    requires
        n < 16,
    ensures
        s@ =~= seq![hex_digit(n)],
{
    proof {
        reveal_strlit("0");
        reveal_strlit("1");
        reveal_strlit("2");
        reveal_strlit("3");
        reveal_strlit("4");
        reveal_strlit("5");
        reveal_strlit("6");
        reveal_strlit("7");
        reveal_strlit("8");
        reveal_strlit("9");
        reveal_strlit("a");
        reveal_strlit("b");
        reveal_strlit("c");
        reveal_strlit("d");
        reveal_strlit("e");
        reveal_strlit("f");
    }
    match n {
        0 => "0",
        1 => "1",
        2 => "2",
        3 => "3",
        4 => "4",
        5 => "5",
        6 => "6",
        7 => "7",
        8 => "8",
        9 => "9",
        10 => "a",
        11 => "b",
        12 => "c",
        13 => "d",
        14 => "e",
        _ => "f",
    }
}

/// Append the two zero-padded hex characters of a byte.
fn append_hex_byte(out: &mut String, b: u8)
    ensures
        final(out)@ == old(out)@ + hex_byte(b),
{
    out.append(hex_digit_str(b / 16));
    out.append(hex_digit_str(b % 16));
    assert(out@ =~= old(out)@ + hex_byte(b));
}

/// Append the hex characters of a 32-byte value, two per byte.
fn append_hex_32(out: &mut String, bytes: &[u8; 32])
    ensures
        final(out)@ == old(out)@ + hex_bytes(bytes@),
{
    for i in 0..32usize
        invariant
            out@ =~= old(out)@ + hex_bytes(bytes@.take(i as int)),
    {
        append_hex_byte(out, bytes[i]);
        proof {
            assert(bytes@.take(i + 1).drop_last() =~= bytes@.take(i as int));
            assert(bytes@.take(i + 1).last() == bytes@[i as int]);
        }
    }
    proof {
        assert(bytes@.take(32) =~= bytes@);
    }
}

/// Render one signature as the EVM-style compact hex string.
pub fn as_evm_string(signature: &Signature) -> (s: String)
    requires
        valid_signature(*signature),
    ensures
        s@ == evm_signature_chars(*signature),
        s@.len() == 132,
{
    proof {
        reveal_strlit("0x");
    }
    let mut s = String::new();
    s.append("0x");
    assert(s@ =~= seq!['0', 'x']);
    append_hex_32(&mut s, &signature.value_r);
    append_hex_32(&mut s, &signature.value_s);
    append_hex_byte(&mut s, signature.recovery_id + 27);
    proof {
        assert(s@ =~= evm_signature_chars(*signature));
        lemma_evm_signature_len(*signature);
    }
    s
}

/// Join the rendered signatures into the proof string stored on the result:
/// `[` + the signatures separated by `", "` + `]`, in engine order.
pub fn format_attestation_proof(signatures: &Vec<Signature>) -> (s: String)
    requires
        valid_signatures(signatures@),
    ensures
        s@ == proof_chars(signatures@),
{
    proof {
        reveal_strlit("[");
    }
    let mut s = String::new();
    s.append("[");
    assert(s@ =~= seq!['['] + proof_inner_chars(signatures@.take(0)));
    for i in 0..signatures.len()
        invariant
            valid_signatures(signatures@),
            s@ =~= seq!['['] + proof_inner_chars(signatures@.take(i as int)),
    {
        proof {
            reveal_strlit(", ");
        }
        if i > 0 {
            s.append(", ");
        }
        let sig_str = as_evm_string(&signatures[i]);
        s.append(sig_str.as_str());
        proof {
            assert(signatures@.take(i + 1).drop_last() =~= signatures@.take(i as int));
            assert(signatures@.take(i + 1).last() == signatures@[i as int]);
        }
    }
    proof {
        reveal_strlit("]");
        assert(signatures@.take(signatures@.len() as int) =~= signatures@);
    }
    s.append("]");
    assert(s@ =~= proof_chars(signatures@));
    s
}

} // verus!
