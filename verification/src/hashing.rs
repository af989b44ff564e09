//! The digest of the raw entry text: SHA-256 over its UTF-8 bytes, rendered
//! as lowercase hexadecimal. The digest itself comes from an outside
//! implementation and is only named here; the hexadecimal rendering is
//! specified exactly.

use vstd::prelude::*;
use vstd::utf8::encode_utf8;

verus! {

/// True of the sixteen characters that lowercase hexadecimal uses.
pub open spec fn is_lower_hex_char(c: char) -> bool {
    ('0' <= c && c <= '9') || ('a' <= c && c <= 'f')
}

/// The lowercase hexadecimal digit for a value below sixteen.
pub open spec fn hex_digit(v: int) -> char {
    if v == 0 {
        '0'
    } else if v == 1 {
        '1'
    } else if v == 2 {
        '2'
    } else if v == 3 {
        '3'
    } else if v == 4 {
        '4'
    } else if v == 5 {
        '5'
    } else if v == 6 {
        '6'
    } else if v == 7 {
        '7'
    } else if v == 8 {
        '8'
    } else if v == 9 {
        '9'
    } else if v == 10 {
        'a'
    } else if v == 11 {
        'b'
    } else if v == 12 {
        'c'
    } else if v == 13 {
        'd'
    } else if v == 14 {
        'e'
    } else {
        'f'
    }
}

/// The lowercase hexadecimal rendering of a byte sequence: two digits per
/// byte, high nibble first.
pub open spec fn hex_of(bytes: Seq<u8>) -> Seq<char> {
    Seq::new(
        bytes.len() * 2,
        |i: int|
            if i % 2 == 0 {
                hex_digit(bytes[i / 2] as int / 16)
            } else {
                hex_digit(bytes[i / 2] as int % 16)
            },
    )
}

/// The hexadecimal rendering doubles the length and yields only lowercase
/// hexadecimal characters.
pub proof fn lemma_hex_of_is_lower_hex(bytes: Seq<u8>)
    ensures
        hex_of(bytes).len() == bytes.len() * 2,
        forall|i: int| 0 <= i < hex_of(bytes).len() ==> is_lower_hex_char(#[trigger] hex_of(bytes)[i]),
{
    assert forall|i: int| 0 <= i < hex_of(bytes).len() implies is_lower_hex_char(
        #[trigger] hex_of(bytes)[i],
    ) by {
        let b = bytes[i / 2] as int;
        assert(0 <= b / 16 < 16);
        assert(0 <= b % 16 < 16);
    }
}

/// The SHA-256 digest of a byte sequence, named after the outside
/// implementation that computes it.
pub uninterp spec fn sha256_of(bytes: Seq<u8>) -> Seq<u8>;

/// The digest text for an entry: SHA-256 over the entry's UTF-8 bytes,
/// rendered as lowercase hexadecimal.
pub open spec fn digest_hex_of(s: Seq<char>) -> Seq<char> {
    hex_of(sha256_of(encode_utf8(s)))
}

/// Relies on sha2::Sha256 through the Digest trait: the digest is a function
/// of the input bytes alone, and is always 32 bytes long.
#[verifier::external_body]
fn sha256(bytes: &[u8]) -> (r: Vec<u8>)
    ensures
        r@ == sha256_of(bytes@),
        r@.len() == 32,
{
    let mut h = <sha2::Sha256 as sha2::Digest>::new();
    <sha2::Sha256 as sha2::Digest>::update(&mut h, bytes);
    <sha2::Sha256 as sha2::Digest>::finalize(h).to_vec()
}

/// Relies on hex::encode: each byte becomes two lowercase hexadecimal digits,
/// high nibble first, from the table 0123456789abcdef.
#[verifier::external_body]
fn hex_encode(bytes: &Vec<u8>) -> (r: String)
    ensures
        r@ == hex_of(bytes@),
{
    hex::encode(bytes)
}

/// The digest of the raw entry text, exactly as typed: 64 lowercase
/// hexadecimal characters, the same ones on every call with the same text.
pub fn hash(input: &str) -> (r: String)
    ensures
        r@ == digest_hex_of(input@),
        r@.len() == 64,
        forall|i: int| 0 <= i < r@.len() ==> is_lower_hex_char(#[trigger] r@[i]),
{
    let bytes = input.as_bytes();
    let digest = sha256(bytes);
    let r = hex_encode(&digest);
    proof {
        lemma_hex_of_is_lower_hex(digest@);
    }
    r
}

/// Law: the digest text is a function of the entry alone; two calls on the
/// same text yield the same characters.
pub proof fn lemma_hash_deterministic(s1: Seq<char>, s2: Seq<char>, r1: Seq<char>, r2: Seq<char>)
    requires
        s1 == s2,
        r1 == digest_hex_of(s1),
        r2 == digest_hex_of(s2),
    ensures
        r1 == r2,
{
}

} // verus!
