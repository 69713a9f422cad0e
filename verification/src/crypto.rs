//! Calls into the hashing, encoding and randomness crates, and the
//! constant-time byte comparison used to check one-time codes.

use base64::engine::general_purpose::URL_SAFE_NO_PAD;
use base64::Engine;
use rand::rngs::OsRng;
use rand::RngCore;
use sha2::{Digest, Sha256};
use vstd::prelude::*;

verus! {

/// Name for the SHA-256 digest of a byte sequence.
pub uninterp spec fn sha256_of(data: Seq<u8>) -> Seq<u8>;

/// Name for the URL-safe, unpadded base64 text of a byte sequence.
pub uninterp spec fn base64_url_no_pad_of(data: Seq<u8>) -> Seq<char>;

/// `sha2::Sha256::digest`: the SHA-256 digest of `data`. The contract names
/// the result `sha256_of(data)` and states its documented size of 32 bytes;
/// the hash function itself is not stated.
#[verifier::external_body]
pub(crate) fn sha256(data: &[u8]) -> (d: Vec<u8>)
    ensures
        d@ == sha256_of(data@),
        d@.len() == 32,
{
    Sha256::digest(data).to_vec()
}

/// A character of the URL-safe base64 alphabet of RFC 4648: `A`..`Z`,
/// `a`..`z`, `0`..`9`, `-` and `_`.
pub open spec fn url_safe_base64_char(c: char) -> bool {
    ('A' <= c <= 'Z') || ('a' <= c <= 'z') || ('0' <= c <= '9') || c == '-' || c == '_'
}

/// The length of the unpadded base64 text of `n` bytes: four characters per
/// three bytes, and two or three for a last group of one or two bytes.
pub open spec fn unpadded_base64_len(n: nat) -> nat {
    4 * (n / 3) + if n % 3 == 0 {
        0
    } else {
        n % 3 + 1
    }
}

/// `base64::Engine::encode` on the `URL_SAFE_NO_PAD` engine. The contract
/// names the result `base64_url_no_pad_of(data)` and states what the crate
/// documents and its `encoded_len` computes: characters of the URL-safe
/// alphabet only, no padding, `unpadded_base64_len` characters, and a text
/// that no other byte sequence encodes to (decoding gives the bytes back).
/// The bit-level mapping itself is not stated. The length bound keeps the
/// size computation, which panics on overflow, in range.
#[verifier::external_body]
pub(crate) fn base64_url_no_pad(data: &[u8]) -> (s: String)
    requires
        data@.len() <= usize::MAX / 2,
    ensures
        s@ == base64_url_no_pad_of(data@),
        s@.len() == unpadded_base64_len(data@.len()),
        forall|i: int| 0 <= i < s@.len() ==> url_safe_base64_char(#[trigger] s@[i]),
        forall|other: Seq<u8>| #[trigger] base64_url_no_pad_of(other) == s@ ==> other == data@,
{
    URL_SAFE_NO_PAD.encode(data)
}

/// `rand::rngs::OsRng` filling `len` bytes through `RngCore::try_fill_bytes`.
/// `None` where the operating system's random source reports an error;
/// otherwise `len` bytes from it. Which bytes is not stated: they are
/// random.
#[verifier::external_body]
pub(crate) fn os_random_bytes(len: usize) -> (r: Option<Vec<u8>>)
    ensures
        r matches Some(v) ==> v@.len() == len,
{
    let mut random = vec![0u8; len];
    match OsRng.try_fill_bytes(&mut random) {
        Ok(()) => Some(random),
        Err(_) => None,
    }
}

proof fn lemma_or_xor_zero(acc: u8, x: u8, y: u8)
    ensures
        ((acc | (x ^ y)) == 0u8) <==> (acc == 0u8 && x == y),
{
    assert(((acc | (x ^ y)) == 0u8) <==> (acc == 0u8 && x == y)) by (bit_vector);
}

/// Compares two byte strings in time that depends only on their lengths:
/// true exactly when they are equal.
pub fn constant_time_equal(a: &[u8], b: &[u8]) -> (r: bool)
    ensures
        r == (a@ == b@),
{
    if a.len() != b.len() {
        return false;
    }
    let mut acc: u8 = 0;
    let mut i: usize = 0;
    while i < a.len()
        invariant
            a.len() == b.len(),
            i <= a.len(),
            (acc == 0u8) <==> (forall|j: int| 0 <= j < i ==> a@[j] == b@[j]),
        decreases a.len() - i,
    {
        let x = a[i];
        let y = b[i];
        proof {
            lemma_or_xor_zero(acc, x, y);
        }
        acc = acc | (x ^ y);
        i += 1;
    }
    if acc == 0 {
        assert(a@ =~= b@);
        true
    } else {
        false
    }
}

} // verus!
