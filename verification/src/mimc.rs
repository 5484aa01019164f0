//! The MiMC-style commitment hash.
//!
//! One round maps `x` under a key to `(x + key)^7 + x`. The two-input hash
//! runs the first input through a round with key zero and then through a
//! round keyed by the second input; the three-input hash adds a round keyed
//! by the third. A base commitment is the two-input hash of an attribute and
//! its blinding factor; a session commitment is the three-input hash of a
//! base commitment, a session nonce and a verifier's domain tag.

use crate::field::{field_add, field_pow, lemma_view_injective, modulus, u64_to_fr, FieldElement};
use vstd::prelude::*;

verus! {

/// The exponent of the round's power map.
pub const ROUND_EXPONENT: u64 = 7;

/// One round: `(x + key)^7 + x`.
pub open spec fn round_value(x: nat, key: nat) -> nat {
    field_add(field_pow(field_add(x, key), ROUND_EXPONENT as nat), x)
}

/// The hash of two inputs.
pub open spec fn hash2(a: nat, b: nat) -> nat {
    round_value(round_value(a, 0), b)
}

/// The hash of three inputs.
pub open spec fn hash3(a: nat, b: nat, c: nat) -> nat {
    round_value(round_value(round_value(a, 0), b), c)
}

/// The commitment to the attribute `x` under the blinding factor `r`.
pub open spec fn base_commitment(x: nat, r: nat) -> nat {
    hash2(x, r)
}

/// The commitment that binds the base commitment `c` to one session.
pub open spec fn session_commitment(c: nat, nonce: nat, domain: nat) -> nat {
    hash3(c, nonce, domain)
}

/// One round of the hash.
pub fn mimc_round(x: FieldElement, key: FieldElement) -> (r: FieldElement)
    ensures
        r@ == round_value(x@, key@),
        r@ < modulus(),
{
    let keyed = x.add(&key);
    let powered = keyed.pow(ROUND_EXPONENT);
    powered.add(&x)
}

/// The hash of two field elements.
pub fn mimc2(a: &FieldElement, b: &FieldElement) -> (r: FieldElement)
    ensures
        r@ == hash2(a@, b@),
        r@ < modulus(),
{
    let key = u64_to_fr(0);
    let h = mimc_round(*a, key);
    mimc_round(h, *b)
}

/// The hash of three field elements.
pub fn mimc3(a: &FieldElement, b: &FieldElement, c: &FieldElement) -> (r: FieldElement)
    ensures
        r@ == hash3(a@, b@, c@),
        r@ < modulus(),
{
    let key = u64_to_fr(0);
    let h = mimc_round(*a, key);
    let h = mimc_round(h, *b);
    mimc_round(h, *c)
}

/// Commits to the attribute `x` under the blinding factor `r`.
pub fn compute_base_commitment(x: &FieldElement, r: &FieldElement) -> (c: FieldElement)
    ensures
        c@ == base_commitment(x@, r@),
        c@ < modulus(),
{
    mimc2(x, r)
}

/// Binds the base commitment `c` to a session nonce and a verifier's domain
/// tag.
pub fn compute_session_commitment(
    c: &FieldElement,
    nonce: &FieldElement,
    domain: &FieldElement,
) -> (sc: FieldElement)
    ensures
        sc@ == session_commitment(c@, nonce@, domain@),
        sc@ < modulus(),
{
    mimc3(c, nonce, domain)
}

/// The three-input hash extends the two-input hash by one round.
pub proof fn lemma_hash3_extends_hash2(a: nat, b: nat, c: nat)
    ensures
        hash3(a, b, c) == round_value(hash2(a, b), c),
{
}

/// Commitments are deterministic: two base commitments to the same attribute
/// under the same blinding factor are the same element.
pub proof fn lemma_base_commitment_deterministic(
    x: FieldElement,
    r: FieldElement,
    c1: FieldElement,
    c2: FieldElement,
)
    requires
        c1@ == base_commitment(x@, r@),
        c2@ == base_commitment(x@, r@),
    ensures
        c1 == c2,
{
    lemma_view_injective(c1, c2);
}

/// Session commitments are deterministic in the same way.
pub proof fn lemma_session_commitment_deterministic(
    c: FieldElement,
    nonce: FieldElement,
    domain: FieldElement,
    sc1: FieldElement,
    sc2: FieldElement,
)
    requires
        sc1@ == session_commitment(c@, nonce@, domain@),
        sc2@ == session_commitment(c@, nonce@, domain@),
    ensures
        sc1 == sc2,
{
    lemma_view_injective(sc1, sc2);
}

} // verus!
