//! Artifact integrity: SHA-256 digests compared against the hex checksum
//! recorded in the catalog. The digest itself comes from an outside crate;
//! everything around it is verified against its named result.
use vstd::prelude::*;

use crate::platform::str_eq;

verus! {

/// The SHA-256 digest of a byte sequence; a pure function of its input,
/// computed by an outside crate.
pub uninterp spec fn sha256_of(data: Seq<u8>) -> Seq<u8>;

/// The lowercase hex character for a value below 16.
pub open spec fn hex_digit(n: u8) -> char
    recommends
        n < 16,
{
    if n < 10 {
        (('0' as u8) + n) as char
    } else {
        (('a' as u8) + (n - 10)) as char
    }
}

/// The two lowercase hex characters of one byte, high digit first.
pub open spec fn hex_of_byte(b: u8) -> Seq<char> {
    seq![hex_digit(b / 16), hex_digit(b % 16)]
}

/// The lowercase hex encoding of a byte sequence: two characters per byte.
pub open spec fn hex_lower(bs: Seq<u8>) -> Seq<char>
    decreases bs.len(),
{
    if bs.len() == 0 {
        Seq::empty()
    } else {
        hex_of_byte(bs[0]) + hex_lower(bs.drop_first())
    }
}

/// A byte sequence satisfies a recorded checksum when the lowercase hex
/// encoding of its SHA-256 digest equals the recorded text.
pub open spec fn checksum_ok(content: Seq<u8>, expected: Seq<char>) -> bool {
    hex_lower(sha256_of(content)) == expected
}

/// Relies on sha2::Sha256 (via sha2::Digest::digest): the digest is a pure
/// function of the input bytes and is 32 bytes long.
#[verifier::external_body]
fn sha256(data: &Vec<u8>) -> (r: Vec<u8>)
    ensures
        r@ == sha256_of(data@),
        r@.len() == 32,
{
    <sha2::Sha256 as sha2::Digest>::digest(data.as_slice()).to_vec()
}

/// Relies on hex::encode: two lowercase hex digits per input byte, in order.
#[verifier::external_body]
fn to_hex(bytes: &Vec<u8>) -> (r: String)
    ensures
        r@ == hex_lower(bytes@),
{
    hex::encode(bytes.as_slice())
}

/// Whether a digest's lowercase hex encoding equals the recorded checksum text.
pub fn digest_matches(digest: &Vec<u8>, expected: &str) -> (r: bool)
    ensures
        r == (hex_lower(digest@) == expected@),
{
    let encoded = to_hex(digest);
    str_eq(encoded.as_str(), expected)
}

/// Whether a byte sequence's SHA-256 digest matches the recorded checksum.
pub fn content_matches_checksum(content: &Vec<u8>, expected: &str) -> (r: bool)
    ensures
        r == checksum_ok(content@, expected@),
{
    let digest = sha256(content);
    digest_matches(&digest, expected)
}

} // verus!
