//! Issuing a credential.
//!
//! For each attribute, in the declared order: the value is encoded into the
//! field, split into two shares, blinded and committed to. The commitments are
//! then signed, in the same order, together with a fresh identifier, under a
//! fresh issuer key.
//!
//! Everything random that an issuance consumes is gathered in an
//! [`IssuanceEntropy`]. Given the entropy, the credential is a function of the
//! attribute values, and [`credential_issued`] says which.

use crate::decimal::{
    decimal_chars, decimal_literal_residue, fr_to_decimal, is_decimal_literal, is_digit,
    lemma_field_decimal_round_trip,
};
use crate::field::{
    field_add, field_pow, field_sub, le_bytes_to_fr, le_bytes_value, lemma_field_ops_in_range,
    modulus, u64_to_fr, FieldElement,
};
use crate::format::{Attribute, AttributeData, Credential};
use crate::mimc::{base_commitment, compute_base_commitment, round_value, ROUND_EXPONENT};
use crate::sharing::{lemma_shares_reconstruct, random_seed, seed_value, shares_from_seed};
use crate::signature::{
    credential_digest, credential_message, dalek_generate, ed25519_public_key, ed25519_signature,
    element_values, hex_chars, keypair_from_seed, pk_to_hex, sign_message,
};
use vstd::arithmetic::div_mod::lemma_mod_bound;
use vstd::prelude::*;
use vstd::string::*;

verus! {

/// The random input to one attribute: the seed of its first share and the seed
/// of its blinding factor.
#[derive(Clone, Copy)]
pub struct AttributeEntropy {
    pub share: [u8; 32],
    pub blinding: [u8; 32],
}

/// The random input to one issuance.
#[derive(Clone)]
pub struct IssuanceEntropy {
    /// The identifier that the credential gets.
    pub credential_id: String,
    /// The secret seed of the issuer key that signs the credential.
    pub signing_seed: [u8; 32],
    pub age: AttributeEntropy,
    pub income: AttributeEntropy,
}

/// Whether `c` is a lower-case hexadecimal digit.
pub open spec fn is_lower_hex(c: char) -> bool {
    is_digit(c) || 'a' <= c <= 'f'
}

/// Whether `s` is the text of a random (version 4) UUID: 32 lower-case
/// hexadecimal digits in groups of 8, 4, 4, 4 and 12 with hyphens between
/// them, the third group beginning with `4` and the fourth with `8`, `9`, `a`
/// or `b`.
pub open spec fn is_uuid_v4_text(s: Seq<char>) -> bool {
    &&& s.len() == 36
    &&& forall|i: int|
        0 <= i < 36 ==> if i == 8 || i == 13 || i == 18 || i == 23 {
            #[trigger] s[i] == '-'
        } else {
            is_lower_hex(s[i])
        }
    &&& s[14] == '4'
    &&& (s[19] == '8' || s[19] == '9' || s[19] == 'a' || s[19] == 'b')
}

/// `Uuid::new_v4` of `uuid`, written by its `Display`: a fresh random UUID in
/// hyphenated lower-case form.
#[verifier::external_body]
fn uuid_new_v4() -> (r: String)
    ensures
        is_uuid_v4_text(r@),
{
    uuid::Uuid::new_v4().to_string()
}

/// The first share of an attribute under its entropy.
pub open spec fn first_share(e: AttributeEntropy) -> nat {
    seed_value(e.share@)
}

/// The blinding factor of an attribute under its entropy.
pub open spec fn blinding_factor(e: AttributeEntropy) -> nat {
    seed_value(e.blinding@)
}

/// The base commitment to an attribute value under its entropy.
pub open spec fn attribute_commitment(value: u64, e: AttributeEntropy) -> nat {
    base_commitment(value as nat, blinding_factor(e))
}

/// Whether `data` is what issuing the attribute `value` under the entropy `e`
/// gives.
pub open spec fn attribute_issued(data: AttributeData, value: u64, e: AttributeEntropy) -> bool {
    &&& data.x1@ == decimal_chars(first_share(e))
    &&& data.x2@ == decimal_chars(field_sub(value as nat, first_share(e)))
    &&& data.r@ == decimal_chars(blinding_factor(e))
    &&& data.c@ == decimal_chars(attribute_commitment(value, e))
}

/// The commitments of a credential for `age` and `income`, in signing order.
pub open spec fn issued_commitments(age: u64, income: u64, e: IssuanceEntropy) -> Seq<nat> {
    seq![attribute_commitment(age, e.age), attribute_commitment(income, e.income)]
}

/// Whether `cred` is the credential that issuing `age` and `income` under the
/// entropy `e` gives.
pub open spec fn credential_issued(
    cred: Credential,
    age: u64,
    income: u64,
    e: IssuanceEntropy,
) -> bool {
    &&& cred.credential_id@ == e.credential_id@
    &&& cred.issuer_pk@ == hex_chars(ed25519_public_key(e.signing_seed@))
    &&& cred.sig@ == hex_chars(
        ed25519_signature(
            e.signing_seed@,
            credential_digest(e.credential_id@, issued_commitments(age, income, e)),
        ),
    )
    &&& cred.attributes@.len() == 2
    &&& cred.attributes@[0].name@ == "age"@
    &&& attribute_issued(cred.attributes@[0].data, age, e.age)
    &&& cred.attributes@[1].name@ == "income"@
    &&& attribute_issued(cred.attributes@[1].data, income, e.income)
}

/// Issues one attribute: encodes `value`, shares it, blinds it and commits to
/// it. Returns the attribute's data and its base commitment.
pub fn issue_attribute(value: u64, entropy: &AttributeEntropy) -> (issued: (
    AttributeData,
    FieldElement,
))
    ensures
        attribute_issued(issued.0, value, *entropy),
        issued.1@ == attribute_commitment(value, *entropy),
{
    let x = u64_to_fr(value);
    let (x1, x2) = shares_from_seed(&x, &entropy.share);
    let r = le_bytes_to_fr(entropy.blinding.as_slice());
    let c = compute_base_commitment(&x, &r);
    let data = AttributeData {
        x1: fr_to_decimal(&x1),
        x2: fr_to_decimal(&x2),
        r: fr_to_decimal(&r),
        c: fr_to_decimal(&c),
    };
    (data, c)
}

/// Issues the credential for `age` and `income` that the given entropy
/// determines.
pub fn issue_credential_with(age: u64, income: u64, entropy: IssuanceEntropy) -> (cred: Credential)
    ensures
        credential_issued(cred, age, income, entropy),
        cred.wf(),
{
    let (age_data, age_c) = issue_attribute(age, &entropy.age);
    let (income_data, income_c) = issue_attribute(income, &entropy.income);
    let (sk, vk) = keypair_from_seed(&entropy.signing_seed);
    let parts: [&FieldElement; 2] = [&age_c, &income_c];
    let msg = credential_message(entropy.credential_id.as_str(), parts.as_slice());
    assert(element_values(parts@) =~= issued_commitments(age, income, entropy));
    let sig = sign_message(&sk, msg.as_slice());
    let issuer_pk = pk_to_hex(&vk);
    let mut attributes: Vec<Attribute> = Vec::new();
    attributes.push(Attribute { name: String::from_str("age"), data: age_data });
    attributes.push(Attribute { name: String::from_str("income"), data: income_data });
    let cred = Credential { credential_id: entropy.credential_id, issuer_pk, sig, attributes };
    proof {
        reveal_strlit("age");
        reveal_strlit("income");
        assert("age"@.len() != "income"@.len());
    }
    cred
}

/// Samples the entropy of one issuance: a fresh identifier, a fresh signing
/// seed, and fresh seeds for the share and the blinding factor of each
/// attribute.
pub fn sample_entropy() -> (entropy: IssuanceEntropy)
    ensures
        is_uuid_v4_text(entropy.credential_id@),
{
    let age = AttributeEntropy { share: random_seed(), blinding: random_seed() };
    let income = AttributeEntropy { share: random_seed(), blinding: random_seed() };
    IssuanceEntropy { credential_id: uuid_new_v4(), signing_seed: dalek_generate(), age, income }
}

/// Issues a credential for `age` and `income` with fresh randomness: the
/// result is what some entropy determines, and its identifier is the text of a
/// random UUID.
pub fn issue_credential(age: u64, income: u64) -> (cred: Credential)
    ensures
        exists|e: IssuanceEntropy| credential_issued(cred, age, income, e),
        is_uuid_v4_text(cred.credential_id@),
        cred.wf(),
{
    let entropy = sample_entropy();
    let ghost e = entropy;
    let cred = issue_credential_with(age, income, entropy);
    assert(credential_issued(cred, age, income, e));
    cred
}

/// An issued attribute opens: its four texts are decimal literals, the two
/// shares add up to the attribute's value, and the commitment is the base
/// commitment to that value under the blinding factor.
pub proof fn lemma_issued_attribute_opens(data: AttributeData, value: u64, e: AttributeEntropy)
    requires
        attribute_issued(data, value, e),
    ensures
        is_decimal_literal(data.x1@),
        is_decimal_literal(data.x2@),
        is_decimal_literal(data.r@),
        is_decimal_literal(data.c@),
        field_add(decimal_literal_residue(data.x1@), decimal_literal_residue(data.x2@))
            == value as nat,
        decimal_literal_residue(data.c@) == base_commitment(
            value as nat,
            decimal_literal_residue(data.r@),
        ),
{
    let x1 = first_share(e);
    let x2 = field_sub(value as nat, x1);
    let r = blinding_factor(e);
    let c = attribute_commitment(value, e);
    lemma_mod_bound(le_bytes_value(e.share@) as int, modulus() as int);
    lemma_mod_bound(le_bytes_value(e.blinding@) as int, modulus() as int);
    lemma_field_ops_in_range(value as nat, x1);
    let first = round_value(value as nat, 0);
    lemma_field_ops_in_range(field_pow(field_add(first, r), ROUND_EXPONENT as nat), first);
    lemma_field_decimal_round_trip(x1);
    lemma_field_decimal_round_trip(x2);
    lemma_field_decimal_round_trip(r);
    lemma_field_decimal_round_trip(c);
    lemma_shares_reconstruct(value as nat, x1);
}

} // verus!
