//! The decimal text form of field elements.
//!
//! An element is written as the base-10 digits of its canonical
//! representative, without sign or leading zeros. Reading is more liberal: a
//! decimal literal may carry a leading plus sign and underscores between or
//! after its digits, and may denote any natural number, which is reduced
//! modulo q.

use crate::error::IssuerError;
use crate::field::{le_bytes_to_fr, le_bytes_value, modulus, FieldElement};
use ark_ff::BigInt;
use num_bigint::{BigUint, ParseBigIntError};
use std::str::FromStr;
use vstd::prelude::*;

verus! {

/// Whether `c` is one of the ten decimal digits.
pub open spec fn is_digit(c: char) -> bool {
    '0' <= c <= '9'
}

/// The number that a decimal digit stands for.
pub open spec fn digit_value(c: char) -> nat {
    (c as nat - '0' as nat) as nat
}

/// The decimal digit for a number below ten.
pub open spec fn digit_char(d: nat) -> char {
    if d == 0 {
        '0'
    } else if d == 1 {
        '1'
    } else if d == 2 {
        '2'
    } else if d == 3 {
        '3'
    } else if d == 4 {
        '4'
    } else if d == 5 {
        '5'
    } else if d == 6 {
        '6'
    } else if d == 7 {
        '7'
    } else if d == 8 {
        '8'
    } else {
        '9'
    }
}

/// The canonical decimal text of a natural number: its digits, most
/// significant first, with no leading zero except for zero itself.
pub open spec fn decimal_chars(n: nat) -> Seq<char>
    decreases n,
{
    if n < 10 {
        seq![digit_char(n)]
    } else {
        decimal_chars(n / 10).push(digit_char(n % 10))
    }
}

/// A literal without its optional leading plus sign.
pub open spec fn literal_digits(s: Seq<char>) -> Seq<char> {
    if s.len() > 0 && s[0] == '+' {
        s.drop_first()
    } else {
        s
    }
}

/// Whether `s` is a decimal literal: an optional plus sign, then a digit, then
/// any number of digits and underscores.
pub open spec fn is_decimal_literal(s: Seq<char>) -> bool {
    let t = literal_digits(s);
    &&& t.len() > 0
    &&& is_digit(t[0])
    &&& forall|i: int| 0 <= i < t.len() ==> is_digit(#[trigger] t[i]) || t[i] == '_'
}

/// The number that a run of digits and underscores denotes in base ten; the
/// underscores count for nothing.
pub open spec fn digits_value(t: Seq<char>) -> nat
    decreases t.len(),
{
    if t.len() == 0 {
        0
    } else if t.last() == '_' {
        digits_value(t.drop_last())
    } else {
        10 * digits_value(t.drop_last()) + digit_value(t.last())
    }
}

/// The number that a decimal literal denotes.
pub open spec fn decimal_literal_value(s: Seq<char>) -> nat {
    digits_value(literal_digits(s))
}

/// The field element that a decimal literal denotes.
pub open spec fn decimal_literal_residue(s: Seq<char>) -> nat {
    decimal_literal_value(s) % modulus()
}

/// `ParseBigIntError` of `num-bigint`: why a text was not read as a number.
/// Nothing is known of its values.
#[verifier::external_type_specification]
#[verifier::external_body]
pub struct ExParseBigIntError(ParseBigIntError);

/// `Display` of `ark-ff`'s `BigInt` on the representative of an element: its
/// decimal digits without sign or padding, `0` for zero.
#[verifier::external_body]
fn bigint_to_string(f: &FieldElement) -> (r: String)
    ensures
        r@ == decimal_chars(f@),
{
    BigInt(f.limbs).to_string()
}

/// `BigUint::from_str` of `num-bigint`, its result handed out by
/// `BigUint::to_bytes_le`. The parser drops one leading plus sign, wants a
/// digit next, and then accepts digits and underscores only; it fails on every
/// other text, the empty one included. The bytes denote, least significant
/// first, the number that the digits spell.
#[verifier::external_body]
fn biguint_from_str(s: &str) -> (r: Result<Vec<u8>, ParseBigIntError>)
    ensures
        r is Ok <==> is_decimal_literal(s@),
        r matches Ok(bytes) ==> le_bytes_value(bytes@) == decimal_literal_value(s@),
{
    match BigUint::from_str(s) {
        Ok(n) => Ok(n.to_bytes_le()),
        Err(e) => Err(e),
    }
}

/// Writes a field element as the decimal text of its representative.
pub fn fr_to_decimal(f: &FieldElement) -> (r: String)
    ensures
        r@ == decimal_chars(f@),
{
    bigint_to_string(f)
}

/// Reads a decimal literal as a field element, reducing it modulo q. Fails on
/// every text that is no decimal literal.
pub fn decimal_to_fr(s: &str) -> (r: Result<FieldElement, IssuerError>)
    ensures
        r is Ok <==> is_decimal_literal(s@),
        r matches Ok(f) ==> f@ == decimal_literal_residue(s@) && f@ < modulus(),
        r matches Err(e) ==> e == IssuerError::MalformedFieldValue,
{
    match biguint_from_str(s) {
        Ok(bytes) => Ok(le_bytes_to_fr(bytes.as_slice())),
        Err(_) => Err(IssuerError::MalformedFieldValue),
    }
}

/// The canonical text of a number is made of digits only, and spells that
/// number.
pub proof fn lemma_decimal_chars_spell(n: nat)
    ensures
        decimal_chars(n).len() > 0,
        forall|i: int| 0 <= i < decimal_chars(n).len() ==> is_digit(#[trigger] decimal_chars(n)[i]),
        digits_value(decimal_chars(n)) == n,
    decreases n,
{
    let s = decimal_chars(n);
    if n < 10 {
        assert(s.drop_last() =~= Seq::<char>::empty());
        assert(digits_value(s.drop_last()) == 0);
    } else {
        lemma_decimal_chars_spell(n / 10);
        assert(s.drop_last() =~= decimal_chars(n / 10));
        assert(s.last() == digit_char(n % 10));
    }
}

/// Writing a number and reading the text back gives the number: the canonical
/// text is a decimal literal that denotes it.
pub proof fn lemma_decimal_round_trip(n: nat)
    ensures
        is_decimal_literal(decimal_chars(n)),
        decimal_literal_value(decimal_chars(n)) == n,
{
    lemma_decimal_chars_spell(n);
    let s = decimal_chars(n);
    assert(is_digit(s[0]));
    assert(literal_digits(s) == s);
}

/// Writing a field element and reading the text back gives the same element.
pub proof fn lemma_field_decimal_round_trip(v: nat)
    requires
        v < modulus(),
    ensures
        is_decimal_literal(decimal_chars(v)),
        decimal_literal_residue(decimal_chars(v)) == v,
{
    lemma_decimal_round_trip(v);
    vstd::arithmetic::div_mod::lemma_small_mod(v, modulus());
}

} // verus!
