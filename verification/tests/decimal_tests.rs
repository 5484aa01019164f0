use issuer_rust::decimal::{decimal_to_fr, fr_to_decimal};
use issuer_rust::error::IssuerError;
use issuer_rust::field::u64_to_fr;

const Q: &str = "21888242871839275222246405745257275088548364400416034343698204186575808495617";
const Q_MINUS_ONE: &str =
    "21888242871839275222246405745257275088548364400416034343698204186575808495616";
const Q_MINUS_TWO: &str =
    "21888242871839275222246405745257275088548364400416034343698204186575808495615";
const Q_PLUS_ONE: &str =
    "21888242871839275222246405745257275088548364400416034343698204186575808495618";

#[test]
fn test_round_trip_decimal() {
    let f = u64_to_fr(600_000);
    let s = fr_to_decimal(&f);
    let f2 = decimal_to_fr(&s).unwrap();
    assert_eq!(f, f2);
}

#[test]
fn round_trip_of_zero() {
    let zero = u64_to_fr(0);
    assert_eq!(fr_to_decimal(&zero), "0");
    assert_eq!(decimal_to_fr("0"), Ok(zero));
}

#[test]
fn round_trip_near_the_modulus() {
    for text in [Q_MINUS_ONE, Q_MINUS_TWO] {
        let f = decimal_to_fr(text).unwrap();
        assert_eq!(fr_to_decimal(&f), text);
        assert_eq!(decimal_to_fr(&fr_to_decimal(&f)), Ok(f));
    }
    let top = u64_to_fr(0).sub(&u64_to_fr(1));
    assert_eq!(fr_to_decimal(&top), Q_MINUS_ONE);
    assert_eq!(decimal_to_fr(&fr_to_decimal(&top)), Ok(top));
}

#[test]
fn round_trip_of_computed_elements() {
    let mut f = u64_to_fr(3);
    for _ in 0..50 {
        f = f.pow(7).add(&u64_to_fr(11));
        let text = fr_to_decimal(&f);
        assert_eq!(decimal_to_fr(&text), Ok(f));
        assert!(text.bytes().all(|b| b.is_ascii_digit()));
        assert!(text == "0" || !text.starts_with('0'));
    }
}

#[test]
fn values_at_and_above_the_modulus_are_reduced() {
    assert_eq!(decimal_to_fr(Q), Ok(u64_to_fr(0)));
    assert_eq!(decimal_to_fr(Q_PLUS_ONE), Ok(u64_to_fr(1)));
    assert_eq!(
        decimal_to_fr(
            "115792089237316195423570985008687907853269984665640564039457584007913129639936"
        ),
        decimal_to_fr(
            "6350874878119819312338956282401532410528162663560392320966563075034087161851"
        )
    );
}

#[test]
fn leading_zeros_are_read() {
    assert_eq!(decimal_to_fr("000"), Ok(u64_to_fr(0)));
    assert_eq!(decimal_to_fr("0042"), Ok(u64_to_fr(42)));
}

#[test]
fn a_plus_sign_and_underscores_are_read() {
    assert_eq!(decimal_to_fr("+5"), Ok(u64_to_fr(5)));
    assert_eq!(decimal_to_fr("600_000"), Ok(u64_to_fr(600_000)));
    assert_eq!(decimal_to_fr("1__2_"), Ok(u64_to_fr(12)));
    assert_eq!(decimal_to_fr("+1_0"), Ok(u64_to_fr(10)));
}

#[test]
fn malformed_texts_are_rejected() {
    for text in [
        "", "+", "++1", "+-1", "-1", "_1", "+_1", "_", "12a", "a", "0x10", " 1", "1 ", "1.0",
        "1e3", "١٢", "1\n", "+ 1",
    ] {
        assert_eq!(decimal_to_fr(text), Err(IssuerError::MalformedFieldValue), "{:?}", text);
    }
}
