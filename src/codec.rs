//! Hex decoding, the SHA-1 digest and decimal text of integers, taken from
//! the `hex` and `sha1` crates and from std.
use vstd::prelude::*;
use sha1::Digest;

verus! {

/// The value of one hex digit, upper or lower case.
pub open spec fn hex_nibble(c: u8) -> Option<u8> {
    if 48 <= c <= 57 {
        Some((c - 48) as u8)
    } else if 65 <= c <= 70 {
        Some((c - 55) as u8)
    } else if 97 <= c <= 102 {
        Some((c - 87) as u8)
    } else {
        None
    }
}

/// The bytes written by an even run of hex digits, two digits a byte, the
/// high half first; `None` for odd lengths and for any other character.
pub open spec fn hex_decoded(s: Seq<u8>) -> Option<Seq<u8>> {
    if s.len() % 2 == 0 && forall|i: int| 0 <= i < s.len() ==> (#[trigger] hex_nibble(s[i])) is Some {
        Some(
            Seq::new(
                (s.len() / 2) as nat,
                |i: int| (hex_nibble(s[2 * i])->0 * 16 + hex_nibble(s[2 * i + 1])->0) as u8,
            ),
        )
    } else {
        None
    }
}

/// The SHA-1 digest of a byte string.
pub uninterp spec fn sha1_of(data: Seq<u8>) -> Seq<u8>;

/// The decimal text of `n`, as characters.
pub open spec fn dec_chars(n: nat) -> Seq<char>
    decreases n,
{
    if n < 10 {
        seq![((n + 48) as u8) as char]
    } else {
        dec_chars(n / 10).push(((n % 10 + 48) as u8) as char)
    }
}

/// Relies on `hex::decode`: both cases are accepted, an odd length or a
/// character that is not a hex digit is an error.
#[verifier::external_body]
pub(crate) fn hex_decode(s: &[u8]) -> (r: Option<Vec<u8>>)
    ensures
        r is Some <==> hex_decoded(s@) is Some,
        r is Some ==> r->0@ == hex_decoded(s@)->0,
{
    hex::decode(s).ok()
}

/// Relies on `sha1::Sha1::digest` (through `digest::Digest`): the 20-byte
/// SHA-1 digest of `data`.
#[verifier::external_body]
pub(crate) fn sha1_digest(data: &[u8]) -> (r: Vec<u8>)
    ensures
        r@ == sha1_of(data@),
        r@.len() == 20,
{
    sha1::Sha1::digest(data).to_vec()
}

/// Relies on `u64`'s `Display` through `ToString::to_string`: plain decimal
/// digits.
#[verifier::external_body]
pub(crate) fn decimal_text(n: u64) -> (r: String)
    ensures
        r@ == dec_chars(n as nat),
{
    n.to_string()
}

} // verus!
