//! Two-of-two additive secret sharing, and the sampling of field elements.

use crate::field::{field_add, field_sub, le_bytes_to_fr, le_bytes_value, modulus, FieldElement};
use rand::Rng;
use vstd::arithmetic::div_mod::{lemma_add_mod_noop_right, lemma_small_mod};
use vstd::prelude::*;

verus! {

/// `Rng::gen` of `rand` on the thread-local generator: 32 bytes from a
/// cryptographically secure source. Nothing is known of them.
#[verifier::external_body]
pub(crate) fn random_seed() -> [u8; 32] {
    rand::thread_rng().gen()
}

/// The field element that a 32-byte seed stands for: the seed, read as a
/// little-endian integer, reduced modulo q.
pub open spec fn seed_value(seed: Seq<u8>) -> nat {
    le_bytes_value(seed) % modulus()
}

/// Samples a fresh field element, for use as a blinding factor or a nonce.
pub fn random_fr() -> (r: FieldElement)
    ensures
        r@ < modulus(),
{
    let seed: [u8; 32] = random_seed();
    le_bytes_to_fr(seed.as_slice())
}

/// Splits `x` into two shares of which the first is the element that `seed`
/// stands for.
pub fn shares_from_seed(x: &FieldElement, seed: &[u8; 32]) -> (shares: (FieldElement, FieldElement))
    ensures
        shares.0@ == seed_value(seed@),
        shares.1@ == field_sub(x@, shares.0@),
        field_add(shares.0@, shares.1@) == x@,
        shares.0@ < modulus(),
        shares.1@ < modulus(),
{
    let x1 = le_bytes_to_fr(seed.as_slice());
    let x2 = x.sub(&x1);
    proof {
        use_type_invariant(x);
        lemma_shares_reconstruct(x@, x1@);
    }
    (x1, x2)
}

/// Splits `x` into two shares that add up to it. The first share is sampled
/// afresh on every call.
pub fn generate_shares(x: &FieldElement) -> (shares: (FieldElement, FieldElement))
    ensures
        field_add(shares.0@, shares.1@) == x@,
        shares.1@ == field_sub(x@, shares.0@),
        shares.0@ < modulus(),
        shares.1@ < modulus(),
{
    let seed: [u8; 32] = random_seed();
    shares_from_seed(x, &seed)
}

/// Whatever the first share is, it and the difference to `x` add up to `x`.
pub proof fn lemma_shares_reconstruct(x: nat, x1: nat)
    requires
        x < modulus(),
    ensures
        field_add(x1, field_sub(x, x1)) == x,
{
    let q = modulus() as int;
    lemma_add_mod_noop_right(x1 as int, x as int - x1 as int, q);
    lemma_small_mod(x, modulus());
}

} // verus!
