//! SHA-1 digests of downloaded files, written as lower-case hex.

use vstd::prelude::*;
use sha1::Digest;

verus! {

/// The SHA-1 digest of `data`, as the `sha1` crate computes it.
pub uninterp spec fn sha1_digest_of(data: Seq<u8>) -> Seq<u8>;

/// The lower-case hex digit of a value below 16.
pub open spec fn hex_digit(n: int) -> char {
    seq!['0', '1', '2', '3', '4', '5', '6', '7', '8', '9', 'a', 'b', 'c', 'd', 'e', 'f'][n]
}

/// `bytes` written as lower-case hex, two digits per byte, high half first.
pub open spec fn lower_hex(bytes: Seq<u8>) -> Seq<char>
    decreases bytes.len(),
{
    if bytes.len() == 0 {
        Seq::empty()
    } else {
        lower_hex(bytes.drop_last()) + seq![
            hex_digit(bytes.last() as int / 16),
            hex_digit(bytes.last() as int % 16),
        ]
    }
}

/// The hex text of a file's SHA-1, as manifests write it.
pub open spec fn sha1_hex_of(data: Seq<u8>) -> Seq<char> {
    lower_hex(sha1_digest_of(data))
}

/// Hex doubles the length.
pub proof fn lemma_lower_hex_len(bytes: Seq<u8>)
    ensures
        lower_hex(bytes).len() == 2 * bytes.len(),
    decreases bytes.len(),
{
    if bytes.len() > 0 {
        lemma_lower_hex_len(bytes.drop_last());
    }
}

/// Calls `<sha1::Sha1 as sha1::Digest>::digest`, which feeds `data` to a
/// fresh hasher and finalizes it.  Claimed: the result is the digest that
/// [`sha1_digest_of`] names for `data`, and it is 20 bytes long (the
/// hasher's output size is `U20`).
#[verifier::external_body]
fn sha1_digest(data: &[u8]) -> (r: Vec<u8>)
    ensures
        r@ == sha1_digest_of(data@),
        r@.len() == 20,
{
    sha1::Sha1::digest(data).to_vec()
}

/// Calls `hex::encode`, which maps each byte to two characters of
/// `"0123456789abcdef"`, high half first.  Claimed: the result is exactly
/// [`lower_hex`] of the input.
#[verifier::external_body]
fn hex_encode(data: &[u8]) -> (r: String)
    ensures
        r@ == lower_hex(data@),
{
    hex::encode(data)
}

/// The SHA-1 of `data` as 40 lower-case hex characters.
pub fn sha1_hex(data: &[u8]) -> (r: String)
    ensures
        r@ == sha1_hex_of(data@),
        r@.len() == 40,
{
    let d = sha1_digest(data);
    let r = hex_encode(d.as_slice());
    proof {
        lemma_lower_hex_len(d@);
    }
    r
}

} // verus!
