//! Tests of the fixed-point type: exact arithmetic, conversions, and
//! the documented failure cases.

use plasma_adapter::errors::ArithmeticError;
use plasma_adapter::fixed::{I80F48, FRAC_ONE};

#[test]
fn from_num_widens_losslessly() {
    assert_eq!(I80F48::from_num(0).to_bits(), 0);
    assert_eq!(I80F48::from_num(1).to_bits(), (FRAC_ONE as i128));
    assert_eq!(I80F48::from_num(1000).to_bits(), 1000 * (FRAC_ONE as i128));
    assert_eq!(I80F48::from_num(u64::MAX).to_bits(), (u64::MAX as i128) * (FRAC_ONE as i128));
}

#[test]
fn from_bits_round_trips() {
    for bits in [0i128, 1, -1, (FRAC_ONE as i128), i128::MAX, i128::MIN] {
        assert_eq!(I80F48::from_bits(bits).to_bits(), bits);
    }
}

#[test]
fn from_fraction_exact_halves() {
    let half = I80F48::from_fraction(1, 2).unwrap();
    assert_eq!(half.to_bits(), (FRAC_ONE as i128) / 2);
    let quarter = I80F48::from_fraction(1, 4).unwrap();
    assert_eq!(quarter.to_bits(), (FRAC_ONE as i128) / 4);
    let three = I80F48::from_fraction(6, 2).unwrap();
    assert_eq!(three.to_bits(), 3 * (FRAC_ONE as i128));
}

#[test]
fn from_fraction_rounds_toward_zero() {
    // 1/3 in binary fixed point, truncated after 48 fractional bits.
    let third = I80F48::from_fraction(1, 3).unwrap();
    assert_eq!(third.to_bits(), (FRAC_ONE as i128) / 3);
}

#[test]
fn from_fraction_zero_denominator_fails() {
    // Division by zero is rejected for every numerator.
    for n in [0u64, 1, 7, 12345, u64::MAX] {
        assert_eq!(I80F48::from_fraction(n, 0), Err(ArithmeticError::DivisionByZero));
    }
}

#[test]
fn floor_truncates_toward_negative_infinity() {
    assert_eq!(I80F48::from_num(5).floor(), Ok(5));
    assert_eq!(I80F48::from_fraction(7, 2).unwrap().floor(), Ok(3));
    assert_eq!(I80F48::from_fraction(1, 3).unwrap().floor(), Ok(0));
}

#[test]
fn floor_rejects_values_outside_u64() {
    // Any negative value floors below zero.
    assert_eq!(I80F48::from_bits(-1).floor(), Err(ArithmeticError::OutOfRange));
    // The largest representable value exceeds 2^64 after flooring.
    assert_eq!(I80F48::from_bits(i128::MAX).floor(), Err(ArithmeticError::OutOfRange));
}

#[test]
fn add_and_sub_are_exact() {
    let a = I80F48::from_fraction(7, 2).unwrap();
    let b = I80F48::from_num(10);
    let sum = a.add(b).unwrap();
    assert_eq!(sum.to_bits(), a.to_bits() + b.to_bits());
    assert_eq!(sum.sub(b).unwrap(), a);
}

#[test]
fn add_overflow_is_an_error() {
    let max = I80F48::from_bits(i128::MAX);
    let one = I80F48::from_num(1);
    assert_eq!(max.add(one), Err(ArithmeticError::Overflow));
    let min = I80F48::from_bits(i128::MIN);
    assert_eq!(min.sub(one), Err(ArithmeticError::Overflow));
}

#[test]
fn mul_is_exact_on_representable_products() {
    let three = I80F48::from_num(3);
    let four = I80F48::from_num(4);
    assert_eq!(three.mul(four).unwrap(), I80F48::from_num(12));
    let half = I80F48::from_fraction(1, 2).unwrap();
    assert_eq!(half.mul(half).unwrap(), I80F48::from_fraction(1, 4).unwrap());
    // A product whose 256-bit intermediate exceeds 128 bits but whose
    // result is representable.
    let million = I80F48::from_num(1_000_000);
    assert_eq!(million.mul(million).unwrap(), I80F48::from_num(1_000_000_000_000));
}

#[test]
fn mul_overflow_is_an_error() {
    let max = I80F48::from_bits(i128::MAX);
    assert_eq!(max.mul(max), Err(ArithmeticError::Overflow));
    let big = I80F48::from_num(u64::MAX);
    assert_eq!(big.mul(big), Err(ArithmeticError::Overflow));
}

#[test]
fn add_then_sub_restores_exactly() {
    // The identity `a + b - b == a`, on values with fractional parts.
    let cases = [
        (I80F48::from_fraction(355, 113).unwrap(), I80F48::from_num(9_999)),
        (I80F48::from_bits(-12345678901234567), I80F48::from_fraction(1, 3).unwrap()),
        (I80F48::from_num(u64::MAX), I80F48::from_bits(1)),
    ];
    for (a, b) in cases {
        assert_eq!(a.add(b).unwrap().sub(b).unwrap(), a);
    }
}

#[test]
fn mul_by_one_is_identity() {
    // The identity `a * 1 == a`, with no drift.
    let one = I80F48::from_num(1);
    for a in [
        I80F48::from_num(0),
        I80F48::from_fraction(355, 113).unwrap(),
        I80F48::from_bits(-1),
        I80F48::from_bits(i128::MAX),
    ] {
        assert_eq!(a.mul(one).unwrap(), a);
    }
}

#[test]
fn equality_goes_through_the_decoded_value() {
    let a = I80F48::from_fraction(10, 4).unwrap();
    let b = I80F48::from_fraction(5, 2).unwrap();
    assert!(a == b);
    assert!(a != I80F48::from_num(2));
}

#[test]
fn ordering_goes_through_the_decoded_value() {
    let two = I80F48::from_num(2);
    let half = I80F48::from_fraction(1, 2).unwrap();
    let neg = I80F48::from_bits(-1);
    assert!(half < two);
    assert!(neg < half);
    assert!(two > neg);
    assert_eq!(two.partial_cmp(&two), Some(std::cmp::Ordering::Equal));
}
