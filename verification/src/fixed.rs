//! Signed 128-bit fixed-point numbers with 48 fractional bits.
//!
//! All pool accounting uses this representation: a value is the backing
//! 128-bit signed integer divided by `2^48`.  Arithmetic is exact; any
//! result that does not fit the backing integer is reported as an
//! overflow instead of wrapping, because a silently wrapped amount could
//! understate slippage.

use vstd::prelude::*;
use vstd::arithmetic::mul::lemma_mul_inequality;
use vstd::arithmetic::div_mod::lemma_div_multiples_vanish;
use crate::errors::ArithmeticError;

verus! {

/// The backing-integer value of one whole unit: `2^48`.
pub const FRAC_ONE: u64 = 281474976710656;

/// A fixed-point number: 80 integer bits, 48 fractional bits, stored as
/// the bit pattern of a 128-bit signed integer.
#[derive(Clone, Copy, Debug)]
pub struct I80F48 {
    pub inner: i128,
}

impl View for I80F48 {
    type V = int;

    /// The mathematical view of a fixed-point number is its backing
    /// integer; the represented value is the view divided by `2^48`.
    open spec fn view(&self) -> int {
        self.inner as int
    }
}

/// Whether a mathematical integer fits the 128-bit backing integer.
pub open spec fn in_bits_range(x: int) -> bool {
    i128::MIN <= x <= i128::MAX
}

/// Backing integer of the widened unsigned 64-bit value `v`.
pub open spec fn spec_from_num(v: u64) -> int {
    v * (FRAC_ONE as int)
}

/// Backing integer of the exact product of two fixed-point values,
/// rounded toward negative infinity.
pub open spec fn spec_mul_bits(a: int, b: int) -> int {
    (a * b) / (FRAC_ONE as int)
}

/// Exact fixed-point sum, or an overflow error.
pub open spec fn spec_add(a: I80F48, b: I80F48) -> Result<I80F48, ArithmeticError> {
    if in_bits_range(a@ + b@) {
        Ok(I80F48 { inner: (a@ + b@) as i128 })
    } else {
        Err(ArithmeticError::Overflow)
    }
}

/// Exact fixed-point difference, or an overflow error.
pub open spec fn spec_sub(a: I80F48, b: I80F48) -> Result<I80F48, ArithmeticError> {
    if in_bits_range(a@ - b@) {
        Ok(I80F48 { inner: (a@ - b@) as i128 })
    } else {
        Err(ArithmeticError::Overflow)
    }
}

/// Exact fixed-point product rounded toward negative infinity, or an
/// overflow error.
pub open spec fn spec_mul(a: I80F48, b: I80F48) -> Result<I80F48, ArithmeticError> {
    if in_bits_range(spec_mul_bits(a@, b@)) {
        Ok(I80F48 { inner: spec_mul_bits(a@, b@) as i128 })
    } else {
        Err(ArithmeticError::Overflow)
    }
}

/// Backing integer of `numerator / denominator` rounded toward negative
/// infinity, for a positive denominator.
pub open spec fn spec_from_fraction(numerator: u64, denominator: u64) -> int {
    (numerator * (FRAC_ONE as int)) / (denominator as int)
}

/// The whole-unit part of a fixed-point value, rounded toward negative
/// infinity.
pub open spec fn spec_floor(a: I80F48) -> int {
    a@ / (FRAC_ONE as int)
}

/// Relies on `fixed::types::I80F48::checked_mul` (the `fixed` crate):
/// it computes the exact 256-bit product of the two backing integers,
/// shifts it right by the 48 fractional bits (rounding toward negative
/// infinity), and returns `None` exactly when the shifted result does
/// not fit in 128 signed bits.
#[verifier::external_body]
fn checked_mul_bits(a: i128, b: i128) -> (r: Option<i128>)
    ensures
        in_bits_range(spec_mul_bits(a as int, b as int)) ==> r == Some(
            spec_mul_bits(a as int, b as int) as i128,
        ),
        !in_bits_range(spec_mul_bits(a as int, b as int)) ==> r is None,
{
    ::fixed::types::I80F48::from_bits(a)
        .checked_mul(::fixed::types::I80F48::from_bits(b))
        .map(|v| v.to_bits())
}

impl I80F48 {
    /// Losslessly widens an unsigned 64-bit integer.
    pub fn from_num(value: u64) -> (r: Self)
        ensures
            r@ == spec_from_num(value),
    {
        proof {
            lemma_mul_inequality(value as int, u64::MAX as int, FRAC_ONE as int);
        }
        let inner: i128 = (value as i128) * (FRAC_ONE as i128);
        I80F48 { inner }
    }

    /// Computes `numerator / denominator` in fixed point, rounded toward
    /// negative infinity; fails on a zero denominator.
    pub fn from_fraction(numerator: u64, denominator: u64) -> (r: Result<Self, ArithmeticError>)
        ensures
            denominator == 0 ==> r == Err::<Self, ArithmeticError>(ArithmeticError::DivisionByZero),
            denominator != 0 ==> (r matches Ok(v) && v@ == spec_from_fraction(
                numerator,
                denominator,
            )),
    {
        if denominator == 0 {
            return Err(ArithmeticError::DivisionByZero);
        }
        proof {
            lemma_mul_inequality(numerator as int, u64::MAX as int, FRAC_ONE as int);
        }
        let scaled: u128 = (numerator as u128) * (FRAC_ONE as u128);
        let q: u128 = scaled / (denominator as u128);
        proof {
            assert(q <= scaled);
        }
        Ok(I80F48 { inner: q as i128 })
    }

    /// The whole-unit part, narrowed to an unsigned 64-bit integer;
    /// fails on values outside `[0, 2^64)`.
    pub fn floor(&self) -> (r: Result<u64, ArithmeticError>)
        ensures
            0 <= spec_floor(*self) <= u64::MAX ==> r == Ok::<u64, ArithmeticError>(
                spec_floor(*self) as u64,
            ),
            !(0 <= spec_floor(*self) <= u64::MAX) ==> r == Err::<u64, ArithmeticError>(
                ArithmeticError::OutOfRange,
            ),
    {
        if self.inner < 0 {
            proof {
                assert(spec_floor(*self) < 0) by {
                    vstd::arithmetic::div_mod::lemma_div_is_ordered(self@, -1, FRAC_ONE as int);
                    assert((-1int) / (FRAC_ONE as int) == -1);
                };
            }
            return Err(ArithmeticError::OutOfRange);
        }
        let q: u128 = (self.inner as u128) / (FRAC_ONE as u128);
        if q > u64::MAX as u128 {
            Err(ArithmeticError::OutOfRange)
        } else {
            Ok(q as u64)
        }
    }

    /// The raw backing integer.
    pub fn to_bits(&self) -> (r: i128)
        ensures
            r as int == self@,
    {
        self.inner
    }

    /// Reassembles a value from its raw backing integer.
    pub fn from_bits(bits: i128) -> (r: Self)
        ensures
            r@ == bits as int,
    {
        I80F48 { inner: bits }
    }

    /// Exact addition; overflow is an error, never a wrap.
    pub fn add(self, rhs: Self) -> (r: Result<Self, ArithmeticError>)
        ensures
            r == spec_add(self, rhs),
    {
        if rhs.inner > 0 && self.inner > i128::MAX - rhs.inner {
            Err(ArithmeticError::Overflow)
        } else if rhs.inner < 0 && self.inner < i128::MIN - rhs.inner {
            Err(ArithmeticError::Overflow)
        } else {
            Ok(I80F48 { inner: self.inner + rhs.inner })
        }
    }

    /// Exact subtraction; overflow is an error, never a wrap.
    pub fn sub(self, rhs: Self) -> (r: Result<Self, ArithmeticError>)
        ensures
            r == spec_sub(self, rhs),
    {
        if rhs.inner < 0 && self.inner > i128::MAX + rhs.inner {
            Err(ArithmeticError::Overflow)
        } else if rhs.inner > 0 && self.inner < i128::MIN + rhs.inner {
            Err(ArithmeticError::Overflow)
        } else {
            Ok(I80F48 { inner: self.inner - rhs.inner })
        }
    }

    /// Exact multiplication rounded toward negative infinity; overflow
    /// is an error, never a wrap.
    pub fn mul(self, rhs: Self) -> (r: Result<Self, ArithmeticError>)
        ensures
            r == spec_mul(self, rhs),
    {
        match checked_mul_bits(self.inner, rhs.inner) {
            Some(bits) => Ok(I80F48 { inner: bits }),
            None => Err(ArithmeticError::Overflow),
        }
    }
}

impl PartialEq for I80F48 {
    /// Two values are equal exactly when their decoded fixed-point
    /// values are: the canonical encoding makes that the same as
    /// equality of the backing integers.
    fn eq(&self, rhs: &Self) -> (r: bool) {
        self.inner == rhs.inner
    }
}

impl vstd::std_specs::cmp::PartialEqSpecImpl for I80F48 {
    open spec fn obeys_eq_spec() -> bool {
        true
    }

    open spec fn eq_spec(&self, rhs: &Self) -> bool {
        self@ == rhs@
    }
}

impl PartialOrd for I80F48 {
    /// Ordering goes through the decoded fixed-point values; the
    /// canonical encoding makes that the ordering of the backing
    /// integers.
    fn partial_cmp(&self, rhs: &Self) -> (r: Option<core::cmp::Ordering>) {
        if self.inner < rhs.inner {
            Some(core::cmp::Ordering::Less)
        } else if self.inner == rhs.inner {
            Some(core::cmp::Ordering::Equal)
        } else {
            Some(core::cmp::Ordering::Greater)
        }
    }
}

impl vstd::std_specs::cmp::PartialOrdSpecImpl for I80F48 {
    open spec fn obeys_partial_cmp_spec() -> bool {
        true
    }

    open spec fn partial_cmp_spec(&self, rhs: &Self) -> Option<core::cmp::Ordering> {
        if self@ < rhs@ {
            Some(core::cmp::Ordering::Less)
        } else if self@ == rhs@ {
            Some(core::cmp::Ordering::Equal)
        } else {
            Some(core::cmp::Ordering::Greater)
        }
    }
}

/// Adding a value and then subtracting it again restores the original
/// exactly, whenever the intermediate sum is representable.
pub proof fn lemma_add_sub_cancel(a: I80F48, b: I80F48)
    ensures
        spec_add(a, b) matches Ok(c) ==> spec_sub(c, b) == Ok::<I80F48, ArithmeticError>(a),
{
}

/// Multiplying by the fixed-point image of one changes nothing, with no
/// drift.
pub proof fn lemma_mul_identity(a: I80F48)
    ensures
        spec_mul(a, I80F48 { inner: FRAC_ONE as i128 }) == Ok::<I80F48, ArithmeticError>(a),
{
    lemma_div_multiples_vanish(a@, FRAC_ONE as int);
    assert(a@ * (FRAC_ONE as int) == (FRAC_ONE as int) * a@) by (nonlinear_arith);
    assert(spec_mul_bits(a@, FRAC_ONE as int) == a@);
}

} // verus!
