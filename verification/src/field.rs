//! Elements of the BN254 scalar field and the arithmetic on them.
//!
//! A [`FieldElement`] holds the canonical representative of a residue class
//! as four little-endian 64-bit limbs. Its view is that representative as a
//! natural number, and every contract of this crate speaks of elements through
//! their views. The arithmetic itself is done by `ark-ff`.

use ark_bn254::Fr;
use ark_ff::{BigInt, Field, PrimeField};
use vstd::arithmetic::div_mod::lemma_mod_bound;
use vstd::arithmetic::power::pow;
use vstd::prelude::*;

verus! {

/// The order q of the field, a 254-bit prime.
pub open spec fn modulus() -> nat {
    21888242871839275222246405745257275088548364400416034343698204186575808495617nat
}

/// The number that four limbs denote, least significant limb first.
pub open spec fn limbs_value(l: [u64; 4]) -> nat {
    l[0] as nat + (l[1] as nat) * 0x1_0000_0000_0000_0000nat + (l[2] as nat)
        * 0x1_0000_0000_0000_0000_0000_0000_0000_0000nat + (l[3] as nat)
        * 0x1_0000_0000_0000_0000_0000_0000_0000_0000_0000_0000_0000_0000nat
}

/// The number that a byte string denotes, least significant byte first.
pub open spec fn le_bytes_value(bytes: Seq<u8>) -> nat
    decreases bytes.len(),
{
    if bytes.len() == 0 {
        0
    } else {
        bytes[0] as nat + 256 * le_bytes_value(bytes.drop_first())
    }
}

/// Sum of two residues.
pub open spec fn field_add(a: nat, b: nat) -> nat {
    (a + b) % modulus()
}

/// Difference of two residues.
pub open spec fn field_sub(a: nat, b: nat) -> nat {
    ((a as int - b as int) % (modulus() as int)) as nat
}

/// A residue raised to a power.
pub open spec fn field_pow(a: nat, e: nat) -> nat {
    (pow(a as int, e) % (modulus() as int)) as nat
}

/// An element of the field of order [`modulus`].
#[derive(Clone, Copy, Debug, PartialEq, Eq)]
pub struct FieldElement {
    pub(crate) limbs: [u64; 4],
}

impl View for FieldElement {
    type V = nat;

    closed spec fn view(&self) -> nat {
        limbs_value(self.limbs)
    }
}

/// `Fr::from(u64)` of `ark-bn254`: the element that the integer `n` stands
/// for, that is `n` reduced into the field.
#[verifier::external_body]
fn fr_from_u64(n: u64) -> (r: FieldElement)
    ensures
        r@ == (n as nat) % modulus(),
{
    FieldElement { limbs: Fr::from(n).into_bigint().0 }
}

/// `PrimeField::from_le_bytes_mod_order` of `ark-ff` on `Fr`: the bytes are read
/// as one little-endian integer of any length, which is reduced modulo q.
#[verifier::external_body]
fn fr_from_le_bytes_mod_order(bytes: &[u8]) -> (r: FieldElement)
    ensures
        r@ == le_bytes_value(bytes@) % modulus(),
{
    FieldElement { limbs: Fr::from_le_bytes_mod_order(bytes).into_bigint().0 }
}

/// `Add` of `ark-ff` on `Fr`: addition modulo q.
#[verifier::external_body]
fn fr_add(a: &FieldElement, b: &FieldElement) -> (r: FieldElement)
    ensures
        r@ == field_add(a@, b@),
{
    let sum = Fr::from(BigInt(a.limbs)) + Fr::from(BigInt(b.limbs));
    FieldElement { limbs: sum.into_bigint().0 }
}

/// `Sub` of `ark-ff` on `Fr`: subtraction modulo q.
#[verifier::external_body]
fn fr_sub(a: &FieldElement, b: &FieldElement) -> (r: FieldElement)
    ensures
        r@ == field_sub(a@, b@),
{
    let difference = Fr::from(BigInt(a.limbs)) - Fr::from(BigInt(b.limbs));
    FieldElement { limbs: difference.into_bigint().0 }
}

/// `Field::pow` of `ark-ff` on `Fr`, with an exponent of one limb: the element
/// multiplied by itself `exp` times modulo q, and one for `exp == 0`.
#[verifier::external_body]
fn fr_pow(a: &FieldElement, exp: u64) -> (r: FieldElement)
    ensures
        r@ == field_pow(a@, exp as nat),
{
    let power = Fr::from(BigInt(a.limbs)).pow([exp]);
    FieldElement { limbs: power.into_bigint().0 }
}

impl FieldElement {
    /// Every element that exists at run time holds the canonical
    /// representative of its class.
    #[verifier::type_invariant]
    pub open spec fn canonical(self) -> bool {
        self@ < modulus()
    }

    /// `self + rhs` in the field.
    pub fn add(&self, rhs: &FieldElement) -> (r: FieldElement)
        ensures
            r@ == field_add(self@, rhs@),
            r@ < modulus(),
    {
        let r = fr_add(self, rhs);
        proof {
            use_type_invariant(&r);
        }
        r
    }

    /// `self - rhs` in the field.
    pub fn sub(&self, rhs: &FieldElement) -> (r: FieldElement)
        ensures
            r@ == field_sub(self@, rhs@),
            r@ < modulus(),
    {
        let r = fr_sub(self, rhs);
        proof {
            use_type_invariant(&r);
        }
        r
    }

    /// `self` raised to the power `exp` in the field.
    pub fn pow(&self, exp: u64) -> (r: FieldElement)
        ensures
            r@ == field_pow(self@, exp as nat),
            r@ < modulus(),
    {
        let r = fr_pow(self, exp);
        proof {
            use_type_invariant(&r);
        }
        r
    }
}

/// Encodes a non-negative integer as a field element. Every `u64` is below q,
/// so the encoding is the integer itself and distinct integers give distinct
/// elements.
pub fn u64_to_fr(n: u64) -> (r: FieldElement)
    ensures
        r@ == n as nat,
        r@ < modulus(),
{
    fr_from_u64(n)
}

/// Reads `bytes` as a little-endian integer and reduces it modulo q.
pub fn le_bytes_to_fr(bytes: &[u8]) -> (r: FieldElement)
    ensures
        r@ == le_bytes_value(bytes@) % modulus(),
        r@ < modulus(),
{
    let r = fr_from_le_bytes_mod_order(bytes);
    proof {
        use_type_invariant(&r);
    }
    r
}

/// Sums, differences and powers of residues are canonical representatives.
pub proof fn lemma_field_ops_in_range(a: nat, b: nat)
    ensures
        field_add(a, b) < modulus(),
        field_sub(a, b) < modulus(),
        field_pow(a, b) < modulus(),
{
    let q = modulus() as int;
    lemma_mod_bound((a + b) as int, q);
    lemma_mod_bound(a as int - b as int, q);
    lemma_mod_bound(pow(a as int, b), q);
}

/// The encoding of integers is injective: integers with the same encoding are
/// the same.
pub proof fn lemma_u64_encoding_injective(a: u64, b: u64, fa: FieldElement, fb: FieldElement)
    requires
        fa@ == a as nat,
        fb@ == b as nat,
        fa == fb,
    ensures
        a == b,
{
}

/// A number has one low digit and one remainder above it in any base.
proof fn lemma_split_unique(low1: int, high1: int, low2: int, high2: int, base: int)
    requires
        0 <= low1 < base,
        0 <= low2 < base,
        low1 + base * high1 == low2 + base * high2,
    ensures
        low1 == low2,
        high1 == high2,
{
    assert(base * (high1 - high2) == low2 - low1) by (nonlinear_arith)
        requires
            low1 + base * high1 == low2 + base * high2,
    ;
    assert(high1 == high2) by (nonlinear_arith)
        requires
            base * (high1 - high2) == low2 - low1,
            -base < low2 - low1 < base,
    ;
}

/// An element is determined by its representative: elements with the same view
/// are the same.
pub proof fn lemma_view_injective(a: FieldElement, b: FieldElement)
    requires
        a@ == b@,
    ensures
        a == b,
{
    let base = 0x1_0000_0000_0000_0000int;
    let a2 = a.limbs[2] + base * a.limbs[3];
    let b2 = b.limbs[2] + base * b.limbs[3];
    let a1 = a.limbs[1] + base * a2;
    let b1 = b.limbs[1] + base * b2;
    assert(limbs_value(a.limbs) == a.limbs[0] + base * a1);
    assert(limbs_value(b.limbs) == b.limbs[0] + base * b1);
    lemma_split_unique(a.limbs[0] as int, a1, b.limbs[0] as int, b1, base);
    lemma_split_unique(a.limbs[1] as int, a2, b.limbs[1] as int, b2, base);
    lemma_split_unique(
        a.limbs[2] as int,
        a.limbs[3] as int,
        b.limbs[2] as int,
        b.limbs[3] as int,
        base,
    );
    assert(a.limbs =~= b.limbs);
}

} // verus!
