//! SHA-256 digests of extracted content, computed by the `sha2` crate.

use vstd::prelude::*;
use sha2::Digest;

verus! {

/// The SHA-256 digest of `data`, as `sha2` computes it.
pub uninterp spec fn sha256(data: Seq<u8>) -> Seq<u8>;

/// The lower-case hexadecimal digit for `n`, a number below sixteen.
pub open spec fn hex_digit(n: int) -> char {
    if n < 10 {
        ('0' as int + n) as char
    } else {
        ('a' as int + (n - 10)) as char
    }
}

/// The bytes written out as lower-case hexadecimal, two digits to a byte,
/// high digit first.
pub open spec fn hex_lower(bytes: Seq<u8>) -> Seq<char> {
    Seq::new(
        2 * bytes.len(),
        |i: int|
            if i % 2 == 0 {
                hex_digit(bytes[i / 2] as int / 16)
            } else {
                hex_digit(bytes[i / 2] as int % 16)
            },
    )
}

/// Computes the SHA-256 digest of `data` with `sha2`'s `Sha256::digest` and
/// formats it with `{:x}`, which for the array that `sha2` returns is the
/// `LowerHex` of `generic-array`.
///
/// Trusted: the digest is a function of the bytes alone, named `sha256`, and
/// the format writes each byte of it as two lower-case hexadecimal digits,
/// the high digit first.
#[verifier::external_body]
fn digest_hex(data: &[u8]) -> (hex: String)
    ensures
        hex@ == hex_lower(sha256(data@)),
{
    format!("{:x}", sha2::Sha256::digest(data))
}

/// The SHA-256 digest of `data` in lower-case hexadecimal.
pub fn sha256_hex(data: &[u8]) -> (hex: String)
    ensures
        hex@ == hex_lower(sha256(data@)),
        hex@.len() == 2 * sha256(data@).len(),
{
    digest_hex(data)
}

} // verus!
