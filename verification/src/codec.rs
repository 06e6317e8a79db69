//! Hex text and digests, through `hex` and `md-5`.

use vstd::prelude::*;
use md5::{Digest, Md5};
use sha1::Sha1;

verus! {

/// The lowercase hex digit for `n` (0 to 15).
pub open spec fn hex_digit_lower(n: int) -> char {
    if n < 10 {
        ((n + 48) as u8) as char
    } else {
        ((n - 10 + 97) as u8) as char
    }
}

/// `bytes` in lowercase hex: two digits per byte, the high half first.
pub open spec fn hex_lower(bytes: Seq<u8>) -> Seq<char> {
    Seq::new(
        2 * bytes.len(),
        |i: int|
            hex_digit_lower(
                if i % 2 == 0 {
                    bytes[i / 2] / 16
                } else {
                    bytes[i / 2] % 16
                } as int,
            ),
    )
}

/// `hex::encode`: the bytes in lowercase hex.
#[verifier::external_body]
pub(crate) fn hex_encode(data: &Vec<u8>) -> (r: String)
    ensures
        r@ == hex_lower(data@),
{
    hex::encode(data)
}

/// The value of a hex digit, of either case.
pub open spec fn hex_char_value(c: char) -> Option<int> {
    if '0' <= c && c <= '9' {
        Some(c as int - 48)
    } else if 'a' <= c && c <= 'f' {
        Some(c as int - 97 + 10)
    } else if 'A' <= c && c <= 'F' {
        Some(c as int - 65 + 10)
    } else {
        None
    }
}

/// Whether `s` is hex text: an even number of hex digits.
pub open spec fn is_hex_text(s: Seq<char>) -> bool {
    &&& s.len() % 2 == 0
    &&& forall|i: int| 0 <= i < s.len() ==> (#[trigger] hex_char_value(s[i])) is Some
}

/// The bytes hex text `s` spells, two digits to a byte, the high half first.
pub open spec fn hex_bytes(s: Seq<char>) -> Seq<u8> {
    Seq::new(
        s.len() / 2,
        |i: int| (hex_char_value(s[2 * i]).unwrap() * 16 + hex_char_value(s[2 * i + 1]).unwrap()) as u8,
    )
}

/// How `hex::FromHexError` describes (with `Debug`) why `s` is not hex text.
pub uninterp spec fn hex_error_debug(s: Seq<char>) -> Seq<char>;

/// `hex::decode`: the bytes that hex text spells, or the `Debug` form of the error. `hex`
/// accepts digits of either case and fails on an odd length or any other character.
#[verifier::external_body]
pub(crate) fn hex_decode(s: &String) -> (r: Result<Vec<u8>, String>)
    ensures
        r is Ok <==> is_hex_text(s@),
        r matches Ok(b) ==> b@ == hex_bytes(s@),
        r matches Err(m) ==> m@ == hex_error_debug(s@),
{
    hex::decode(s).map_err(|e| format!("{:?}", e))
}

/// The MD5 digest of `data`.
pub uninterp spec fn md5_of(data: Seq<u8>) -> Seq<u8>;

/// `Md5::digest`: the MD5 digest of `data`, sixteen bytes.
#[verifier::external_body]
pub(crate) fn md5_digest(data: &Vec<u8>) -> (r: Vec<u8>)
    ensures
        r@ == md5_of(data@),
        r@.len() == 16,
{
    Md5::digest(data).to_vec()
}

/// The SHA-1 digest of `data`.
pub uninterp spec fn sha1_of(data: Seq<u8>) -> Seq<u8>;

/// `Sha1::digest`: the SHA-1 digest of `data`, twenty bytes.
#[verifier::external_body]
pub(crate) fn sha1_digest(data: &Vec<u8>) -> (r: Vec<u8>)
    ensures
        r@ == sha1_of(data@),
        r@.len() == 20,
{
    Sha1::digest(data).to_vec()
}

proof fn lemma_hex_digit_value(n: int)
    requires
        0 <= n < 16,
    ensures
        hex_char_value(hex_digit_lower(n)) == Some(n),
{
    if n < 10 {
        assert(((n + 48) as u8) as char == ((n + 48) as char));
    } else {
        assert(((n - 10 + 97) as u8) as char == ((n - 10 + 97) as char));
    }
}

/// Hex text written by `hex::encode` reads back, with `hex::decode`, as the bytes it was
/// written from.
pub proof fn law_hex_round_trip(bytes: Seq<u8>)
    ensures
        is_hex_text(hex_lower(bytes)),
        hex_bytes(hex_lower(bytes)) == bytes,
{
    let h = hex_lower(bytes);
    assert forall|i: int| 0 <= i < h.len() implies (#[trigger] hex_char_value(h[i])) is Some by {
        let b = bytes[i / 2];
        if i % 2 == 0 {
            lemma_hex_digit_value((b / 16) as int);
        } else {
            lemma_hex_digit_value((b % 16) as int);
        }
    }
    assert(h.len() % 2 == 0);
    assert forall|k: int| 0 <= k < bytes.len() implies #[trigger] hex_bytes(h)[k] == bytes[k] by {
        let b = bytes[k];
        assert((2 * k) / 2 == k);
        assert((2 * k + 1) / 2 == k);
        assert((2 * k) % 2 == 0);
        assert((2 * k + 1) % 2 == 1);
        lemma_hex_digit_value((b / 16) as int);
        lemma_hex_digit_value((b % 16) as int);
        assert(b == (b / 16) * 16 + b % 16);
    }
    assert(hex_bytes(h) =~= bytes);
}

} // verus!
