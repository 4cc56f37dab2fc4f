//! Fingerprinting: the trusted Keccak-256 digest, a verified lower-case hex
//! rendering, and the deterministic hash chain over fingerprint strings.

use vstd::prelude::*;

use vstd::string::StringExecFns;

use crate::outcome::UnitOutput;

use sha3::Digest;

verus! {

/// The Keccak-256 digest of a byte sequence; a function of the input bytes
/// alone. Nothing further is assumed of its values.
pub uninterp spec fn keccak_of(data: Seq<u8>) -> Seq<u8>;

/// Relies on `sha3::Keccak256` through `digest::Digest::digest`: the digest
/// is a 32-byte value determined by the input bytes alone.
#[verifier::external_body]
fn keccak256(data: &[u8]) -> (r: Vec<u8>)
    ensures
        r@ == keccak_of(data@),
        r@.len() == 32,
{
    sha3::Keccak256::digest(data).as_slice().to_vec()
}

/// The lower-case hex digit for a value below sixteen.
pub open spec fn hex_digit(n: int) -> char {
    if n == 0 {
        '0'
    } else if n == 1 {
        '1'
    } else if n == 2 {
        '2'
    } else if n == 3 {
        '3'
    } else if n == 4 {
        '4'
    } else if n == 5 {
        '5'
    } else if n == 6 {
        '6'
    } else if n == 7 {
        '7'
    } else if n == 8 {
        '8'
    } else if n == 9 {
        '9'
    } else if n == 10 {
        'a'
    } else if n == 11 {
        'b'
    } else if n == 12 {
        'c'
    } else if n == 13 {
        'd'
    } else if n == 14 {
        'e'
    } else {
        'f'
    }
}

/// The lower-case hex rendering of a byte sequence, two digits per byte,
/// high nibble first.
pub open spec fn hex_of(bytes: Seq<u8>) -> Seq<char>
    decreases bytes.len(),
{
    if bytes.len() == 0 {
        Seq::empty()
    } else {
        hex_of(bytes.drop_last()) + seq![
            hex_digit(bytes.last() as int / 16),
            hex_digit(bytes.last() as int % 16),
        ]
    }
}

/// The hex rendering is two digits for each byte.
pub proof fn lemma_hex_of_len(bytes: Seq<u8>)
    ensures
        hex_of(bytes).len() == 2 * bytes.len(),
    decreases bytes.len(),
{
    if bytes.len() > 0 {
        lemma_hex_of_len(bytes.drop_last());
    }
}

/// Appends the hex digit of a nibble to a string.
fn push_hex_digit(s: &mut String, n: u8)
    requires
        n < 16,
    ensures
        final(s)@ == old(s)@ + seq![hex_digit(n as int)],
{
    proof {
        reveal_strlit("0");
        reveal_strlit("1");
        reveal_strlit("2");
        reveal_strlit("3");
        reveal_strlit("4");
        reveal_strlit("5");
        reveal_strlit("6");
        reveal_strlit("7");
        reveal_strlit("8");
        reveal_strlit("9");
        reveal_strlit("a");
        reveal_strlit("b");
        reveal_strlit("c");
        reveal_strlit("d");
        reveal_strlit("e");
        reveal_strlit("f");
    }
    match n {
        0 => s.append("0"),
        1 => s.append("1"),
        2 => s.append("2"),
        3 => s.append("3"),
        4 => s.append("4"),
        5 => s.append("5"),
        6 => s.append("6"),
        7 => s.append("7"),
        8 => s.append("8"),
        9 => s.append("9"),
        10 => s.append("a"),
        11 => s.append("b"),
        12 => s.append("c"),
        13 => s.append("d"),
        14 => s.append("e"),
        _ => s.append("f"),
    }
}

/// Renders a byte vector in lower-case hex, two digits per byte.
pub fn to_hex(bytes: &Vec<u8>) -> (r: String)
    ensures
        r@ == hex_of(bytes@),
{
    let mut r = String::new();
    let mut i: usize = 0;
    while i < bytes.len()
        invariant
            i <= bytes.len(),
            r@ == hex_of(bytes@.take(i as int)),
        decreases bytes.len() - i,
    {
        let b = bytes[i];
        push_hex_digit(&mut r, b / 16);
        push_hex_digit(&mut r, b % 16);
        proof {
            assert(bytes@.take(i as int + 1).drop_last() =~= bytes@.take(i as int));
            assert(bytes@.take(i as int + 1).last() == bytes@[i as int]);
            assert(r@ =~= hex_of(bytes@.take(i as int + 1)));
        }
        i += 1;
    }
    proof {
        assert(bytes@.take(bytes@.len() as int) =~= bytes@);
    }
    r
}

/// The UTF-8 bytes of a string slice.
pub fn string_bytes(s: &str) -> (r: Vec<u8>)
    ensures
        r@ == vstd::utf8::encode_utf8(s@),
{
    vstd::slice::slice_to_vec(s.as_bytes())
}

/// The hex Keccak-256 digest of a byte vector: always 64 hex characters.
pub fn keccak_hex(data: &Vec<u8>) -> (r: String)
    ensures
        r@ == hex_of(keccak_of(data@)),
        r@.len() == 64,
{
    let digest = keccak256(data.as_slice());
    proof {
        lemma_hex_of_len(digest@);
    }
    to_hex(&digest)
}

/// The fingerprint of one unit output: the hex Keccak-256 digest of its
/// payload bytes.
pub open spec fn fingerprint_spec(out: UnitOutput) -> Seq<char> {
    hex_of(keccak_of(out.bytes@))
}

/// One step of the hash chain: the accumulator and the next fingerprint are
/// concatenated as UTF-8 bytes, digested, and rendered in hex.
pub open spec fn chain_step(acc: Seq<char>, h: Seq<char>) -> Seq<char> {
    hex_of(keccak_of(vstd::utf8::encode_utf8(acc) + vstd::utf8::encode_utf8(h)))
}

/// The chained combination of an ordered fingerprint sequence, seeded with
/// the empty string: the last fingerprint is folded in last.
pub open spec fn chain_hash_spec(hs: Seq<Seq<char>>) -> Seq<char>
    decreases hs.len(),
{
    if hs.len() == 0 {
        Seq::<char>::empty()
    } else {
        chain_step(chain_hash_spec(hs.drop_last()), hs.last())
    }
}

/// Folds an ordered list of fingerprint strings into one chained fingerprint.
pub fn chain_hashes(hashes: &Vec<String>) -> (r: String)
    ensures
        r@ == chain_hash_spec(hashes.deep_view()),
{
    let mut acc = String::new();
    let mut i: usize = 0;
    while i < hashes.len()
        invariant
            i <= hashes.len(),
            acc@ == chain_hash_spec(hashes.deep_view().take(i as int)),
        decreases hashes.len() - i,
    {
        let mut data = string_bytes(acc.as_str());
        let mut tail = string_bytes(hashes[i].as_str());
        data.append(&mut tail);
        let digest = keccak256(data.as_slice());
        acc = to_hex(&digest);
        proof {
            let dv = hashes.deep_view();
            assert(dv.take(i as int + 1).drop_last() =~= dv.take(i as int));
            assert(dv.take(i as int + 1).last() == hashes@[i as int]@);
        }
        i += 1;
    }
    proof {
        assert(hashes.deep_view().take(hashes.deep_view().len() as int) =~= hashes.deep_view());
    }
    acc
}

} // verus!
