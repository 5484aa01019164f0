//! Binding a credential to one verifier for one session.
//!
//! A session carries, for every attribute of the credential, a session
//! commitment: the three-input hash of the attribute's base commitment, the
//! session's nonce and the verifier's domain tag. The nonce is fresh for each
//! session, so that two sessions of one credential cannot be linked through
//! their commitments; the domain tag separates verifiers.

use crate::decimal::{
    decimal_chars, decimal_literal_residue, decimal_to_fr, fr_to_decimal, is_decimal_literal,
};
use crate::error::IssuerError;
use crate::field::{modulus, FieldElement};
use crate::format::{Attribute, Credential, PublicValue, Session, SessionPublic, Threshold};
use crate::hash::{bytes_to_fr, hash_to_field};
use crate::issue::{credential_issued, lemma_issued_attribute_opens, IssuanceEntropy};
use crate::mimc::{compute_session_commitment, session_commitment};
use crate::sharing::random_fr;
use vstd::prelude::*;
use vstd::string::*;
use vstd::utf8::encode_utf8;

verus! {

/// The domain tag of a verifier: the field element that the UTF-8 bytes of its
/// identifier hash to.
pub open spec fn domain_tag(verifier_id: Seq<char>) -> nat {
    hash_to_field(encode_utf8(verifier_id))
}

/// Whether the base commitment of every attribute of `cred` is a decimal
/// literal.
pub open spec fn commitments_readable(cred: Credential) -> bool {
    forall|i: int|
        0 <= i < cred.attributes@.len() ==> is_decimal_literal(
            #[trigger] cred.attributes@[i].data.c@,
        )
}

/// Whether `value` is the public value of `attribute` in a session with the
/// given nonce and domain tag.
pub open spec fn public_value_bound(
    value: PublicValue,
    attribute: Attribute,
    nonce: nat,
    domain: nat,
) -> bool {
    &&& value.name@ == attribute.name@
    &&& value.value.sc@ == decimal_chars(
        session_commitment(decimal_literal_residue(attribute.data.c@), nonce, domain),
    )
}

/// Whether `thresholds` holds the minimum age and the minimum income, in that
/// order and under their names.
pub open spec fn thresholds_set(thresholds: Seq<Threshold>, min_age: u64, min_income: u64) -> bool {
    &&& thresholds.len() == 2
    &&& thresholds[0].name@ == "age_min"@
    &&& thresholds[0].min == min_age
    &&& thresholds[1].name@ == "income_min"@
    &&& thresholds[1].min == min_income
}

/// Whether `session` is the session that binds `cred` to the verifier
/// `verifier_id` under `nonce` with the given thresholds.
pub open spec fn session_bound(
    session: Session,
    cred: Credential,
    verifier_id: Seq<char>,
    min_age: u64,
    min_income: u64,
    nonce: nat,
) -> bool {
    &&& session.verifier_id@ == verifier_id
    &&& session.nonce@ == decimal_chars(nonce)
    &&& thresholds_set(session.thresholds@, min_age, min_income)
    &&& session.public@.len() == cred.attributes@.len()
    &&& forall|i: int|
        0 <= i < cred.attributes@.len() ==> public_value_bound(
            #[trigger] session.public@[i],
            cred.attributes@[i],
            nonce,
            domain_tag(verifier_id),
        )
}

/// Binds one attribute to a session: reads its base commitment and commits to
/// it under the nonce and the domain tag. Fails if the stored commitment is no
/// decimal literal.
pub fn bind_attribute(attribute: &Attribute, nonce: &FieldElement, domain: &FieldElement) -> (r:
    Result<PublicValue, IssuerError>)
    ensures
        r is Ok <==> is_decimal_literal(attribute.data.c@),
        r matches Ok(value) ==> public_value_bound(value, *attribute, nonce@, domain@),
        r matches Err(e) ==> e == IssuerError::MalformedFieldValue,
{
    match decimal_to_fr(attribute.data.c.as_str()) {
        Ok(c) => {
            let sc = compute_session_commitment(&c, nonce, domain);
            Ok(
                PublicValue {
                    name: attribute.name.clone(),
                    value: SessionPublic { sc: fr_to_decimal(&sc) },
                },
            )
        },
        Err(e) => Err(e),
    }
}

/// Creates the session that binds `cred` to the verifier `verifier_id` under
/// the given nonce. Fails if the base commitment of some attribute is no
/// decimal literal, and on no other input.
pub fn create_session_with_nonce(
    cred: &Credential,
    verifier_id: &str,
    min_age: u64,
    min_income: u64,
    nonce: &FieldElement,
) -> (r: Result<Session, IssuerError>)
    ensures
        r is Ok <==> commitments_readable(*cred),
        r matches Ok(session) ==> {
            &&& session_bound(session, *cred, verifier_id@, min_age, min_income, nonce@)
            &&& cred.wf() ==> session.wf()
        },
        r matches Err(e) ==> e == IssuerError::MalformedFieldValue,
{
    let domain = bytes_to_fr(verifier_id.as_bytes());
    let mut public: Vec<PublicValue> = Vec::new();
    let mut i: usize = 0;
    while i < cred.attributes.len()
        invariant
            i <= cred.attributes@.len(),
            domain@ == domain_tag(verifier_id@),
            public@.len() == i,
            forall|j: int| 0 <= j < i ==> is_decimal_literal(#[trigger] cred.attributes@[j].data.c@),
            forall|j: int|
                0 <= j < i ==> public_value_bound(
                    #[trigger] public@[j],
                    cred.attributes@[j],
                    nonce@,
                    domain@,
                ),
        decreases cred.attributes@.len() - i,
    {
        match bind_attribute(&cred.attributes[i], nonce, &domain) {
            Ok(value) => {
                public.push(value);
            },
            Err(e) => {
                return Err(e);
            },
        }
        i = i + 1;
    }
    let mut thresholds: Vec<Threshold> = Vec::new();
    thresholds.push(Threshold { name: String::from_str("age_min"), min: min_age });
    thresholds.push(Threshold { name: String::from_str("income_min"), min: min_income });
    let session = Session {
        verifier_id: String::from_str(verifier_id),
        nonce: fr_to_decimal(nonce),
        thresholds,
        public,
    };
    proof {
        reveal_strlit("age_min");
        reveal_strlit("income_min");
        assert("age_min"@.len() != "income_min"@.len());
        if cred.wf() {
            assert forall|a: int, b: int| 0 <= a < b < session.public_names().len() implies session.public_names()[a]
                != session.public_names()[b] by {
                assert(cred.names()[a] != cred.names()[b]);
                assert(public_value_bound(
                    session.public@[a],
                    cred.attributes@[a],
                    nonce@,
                    domain@,
                ));
                assert(public_value_bound(
                    session.public@[b],
                    cred.attributes@[b],
                    nonce@,
                    domain@,
                ));
            }
        }
    }
    Ok(session)
}

/// Creates a session that binds `cred` to the verifier `verifier_id` under a
/// freshly sampled nonce. Fails if the base commitment of some attribute is no
/// decimal literal, and on no other input.
pub fn create_session(cred: &Credential, verifier_id: &str, min_age: u64, min_income: u64) -> (r:
    Result<Session, IssuerError>)
    ensures
        r is Ok <==> commitments_readable(*cred),
        r matches Ok(session) ==> {
            &&& exists|nonce: nat|
                nonce < modulus() && #[trigger] session_bound(
                    session,
                    *cred,
                    verifier_id@,
                    min_age,
                    min_income,
                    nonce,
                )
            &&& cred.wf() ==> session.wf()
        },
        r matches Err(e) ==> e == IssuerError::MalformedFieldValue,
{
    let nonce = random_fr();
    let r = create_session_with_nonce(cred, verifier_id, min_age, min_income, &nonce);
    proof {
        if r is Ok {
            assert(session_bound(r->Ok_0, *cred, verifier_id@, min_age, min_income, nonce@));
        }
    }
    r
}

/// Every issued credential can be bound to a session: its base commitments are
/// decimal literals.
pub proof fn lemma_issued_credential_readable(
    cred: Credential,
    age: u64,
    income: u64,
    e: IssuanceEntropy,
)
    requires
        credential_issued(cred, age, income, e),
    ensures
        commitments_readable(cred),
{
    lemma_issued_attribute_opens(cred.attributes@[0].data, age, e.age);
    lemma_issued_attribute_opens(cred.attributes@[1].data, income, e.income);
}

} // verus!
