//! SHA-256 and the hash-to-field mapping built on it.

use crate::field::{le_bytes_to_fr, le_bytes_value, modulus, FieldElement};
use sha2::{Digest, Sha256};
use vstd::prelude::*;

verus! {

/// The SHA-256 digest of a byte string.
pub uninterp spec fn sha256_digest(data: Seq<u8>) -> Seq<u8>;

/// `Sha256::digest` of `sha2`: the 32 bytes of the SHA-256 digest of `data`.
#[verifier::external_body]
fn sha256(data: &[u8]) -> (r: [u8; 32])
    ensures
        r@ == sha256_digest(data@),
{
    Sha256::digest(data).into()
}

/// The field element that a byte string hashes to: its digest, read as a
/// little-endian integer and reduced modulo q.
pub open spec fn hash_to_field(data: Seq<u8>) -> nat {
    le_bytes_value(sha256_digest(data)) % modulus()
}

/// The field element that a 32-byte digest stands for.
pub fn digest_to_fr(digest: &[u8; 32]) -> (r: FieldElement)
    ensures
        r@ == le_bytes_value(digest@) % modulus(),
        r@ < modulus(),
{
    le_bytes_to_fr(digest.as_slice())
}

/// The SHA-256 digest of `data` as a vector of 32 bytes.
pub fn sha256_bytes(data: &[u8]) -> (r: Vec<u8>)
    ensures
        r@ == sha256_digest(data@),
        r@.len() == 32,
{
    let digest: [u8; 32] = sha256(data);
    vstd::slice::slice_to_vec(digest.as_slice())
}

/// Maps a byte string, such as a verifier's identifier, to a field element.
pub fn bytes_to_fr(data: &[u8]) -> (r: FieldElement)
    ensures
        r@ == hash_to_field(data@),
        r@ < modulus(),
{
    let digest: [u8; 32] = sha256(data);
    digest_to_fr(&digest)
}

} // verus!
