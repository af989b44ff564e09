//! Structural validity of an entered extended public key. The verdict is the
//! outside parser's: base58check decode, 78-byte payload, public version
//! bytes, and a well-formed compressed curve point, folded into one boolean.

use vstd::prelude::*;

verus! {

/// Whether a string decodes as a structurally valid extended public key.
/// The decoding takes pages to state, so the verdict is only named here; the
/// outside parser is its source of truth.
pub uninterp spec fn xpub_valid(s: Seq<char>) -> bool;

/// Relies on bitcoin::bip32::Xpub::from_str: the verdict depends on the
/// characters alone, and the empty string never decodes, since its base58
/// payload is shorter than the four checksum bytes.
#[verifier::external_body]
fn parse_xpub_ok(s: &str) -> (r: bool)
    ensures
        r == xpub_valid(s@),
        s@.len() == 0 ==> !r,
{
    <bitcoin::bip32::Xpub as core::str::FromStr>::from_str(s).is_ok()
}

/// Whether the entry is a structurally valid extended public key. Total and
/// deterministic: the same verdict on every call with the same text, and the
/// empty entry is always invalid.
pub fn validate(input: &str) -> (r: bool)
    ensures
        r == xpub_valid(input@),
        input@.len() == 0 ==> !r,
{
    parse_xpub_ok(input)
}

/// Law: validity is a function of the text alone; two verdicts on the same
/// text are equal.
pub proof fn lemma_validate_deterministic(s1: Seq<char>, s2: Seq<char>, r1: bool, r2: bool)
    requires
        s1 == s2,
        r1 == xpub_valid(s1),
        r2 == xpub_valid(s2),
    ensures
        r1 == r2,
{
}

} // verus!
