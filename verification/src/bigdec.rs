//! Arbitrary-precision decimals, as `bigdecimal` represents them: a signed
//! integer of any size and a scale `e`, standing for `integer / 10^e` (the
//! scale may be negative).
use crate::decimal::pow10;
use bigdecimal::num_bigint::{BigInt, Sign};
use bigdecimal::BigDecimal;
use vstd::prelude::*;

verus! {

/// The natural number written by base-`2^32` digits, least significant first.
pub open spec fn limbs_value(limbs: Seq<u32>) -> nat
    decreases limbs.len(),
{
    if limbs.len() == 0 {
        0
    } else {
        limbs[0] as nat + 0x1_0000_0000 * limbs_value(limbs.drop_first())
    }
}

/// A big decimal seen as `(integer, scale)`.
pub type BigDecView = (int, int);

/// `a < b` as numbers, for `a.0 / 10^a.1` and `b.0 / 10^b.1`.
pub open spec fn big_value_lt(a: BigDecView, b: BigDecView) -> bool {
    let e = if a.1 >= b.1 {
        a.1
    } else {
        b.1
    };
    a.0 * pow10((e - a.1) as nat) < b.0 * pow10((e - b.1) as nat)
}

/// What `BigDecimal::from_str` gives for the text `s` (`None` when it is
/// refused).
pub uninterp spec fn big_decimal_parse(s: Seq<char>) -> Option<BigDecView>;

/// The text that `BigDecimal`'s `Display` writes for `a`.
pub uninterp spec fn big_decimal_display(a: BigDecView) -> Seq<char>;

/// An arbitrary-precision decimal: sign, magnitude in base-`2^32` digits
/// (least significant first), and scale.
pub struct BigDec {
    negative: bool,
    limbs: Vec<u32>,
    scale: i64,
}

impl View for BigDec {
    type V = BigDecView;

    closed spec fn view(&self) -> BigDecView {
        (
            if self.negative {
                -(limbs_value(self.limbs@) as int)
            } else {
                limbs_value(self.limbs@) as int
            },
            self.scale as int,
        )
    }
}

impl BigDec {
    /// The decimal with the given sign, magnitude digits (base `2^32`, least
    /// significant first) and scale.
    pub fn from_parts(negative: bool, limbs: Vec<u32>, scale: i64) -> (r: BigDec)
        ensures
            r@ == (if negative {
                -(limbs_value(limbs@) as int)
            } else {
                limbs_value(limbs@) as int
            }, scale as int),
    {
        BigDec { negative, limbs, scale }
    }

    /// Zero.
    pub fn zero() -> (r: BigDec)
        ensures
            r@ == (0int, 0int),
    {
        BigDec { negative: false, limbs: Vec::new(), scale: 0 }
    }

    /// The sign is negative (zero may carry either sign).
    pub fn is_negative(&self) -> (r: bool)
        ensures
            r == self.negative_spec(),
            self@.0 < 0 ==> r,
            r ==> self@.0 <= 0,
    {
        self.negative
    }

    /// The sign flag.
    pub closed spec fn negative_spec(&self) -> bool {
        self.negative
    }

    /// The magnitude digits, base `2^32`, least significant first.
    pub fn limbs(&self) -> (r: &Vec<u32>)
        ensures
            limbs_value(r@) as int == (if self.negative_spec() {
                -self@.0
            } else {
                self@.0
            }),
    {
        &self.limbs
    }

    /// The scale.
    pub fn scale(&self) -> (r: i64)
        ensures
            r as int == self@.1,
    {
        self.scale
    }

    /// `self < other`, compared as numbers.
    ///
    /// Calls `<` of `BigDecimal`, whose `cmp` compares signs, then the
    /// magnitudes brought to a common scale: a numeric comparison.
    #[verifier::external_body]
    pub(crate) fn lt(&self, other: &BigDec) -> (r: bool)
        ensures
            r == big_value_lt(self@, other@),
    {
        let sa = if self.negative { Sign::Minus } else { Sign::Plus };
        let sb = if other.negative { Sign::Minus } else { Sign::Plus };
        BigDecimal::new(BigInt::from_slice(sa, &self.limbs), self.scale)
            < BigDecimal::new(BigInt::from_slice(sb, &other.limbs), other.scale)
    }

    /// The text `BigDecimal`'s `Display` writes.
    #[verifier::external_body]
    pub(crate) fn to_text(&self) -> (r: String)
        ensures
            r@ == big_decimal_display(self@),
    {
        let sign = if self.negative { Sign::Minus } else { Sign::Plus };
        BigDecimal::new(BigInt::from_slice(sign, &self.limbs), self.scale).to_string()
    }

    /// Calls `BigDecimal::from_str`.
    #[verifier::external_body]
    pub(crate) fn parse(s: &str) -> (r: Result<BigDec, bigdecimal::ParseBigDecimalError>)
        ensures
            r is Ok <==> big_decimal_parse(s@) is Some,
            r matches Ok(d) ==> d@ == big_decimal_parse(s@)->0,
    {
        let d: BigDecimal = s.parse()?;
        let (digits, scale) = d.into_bigint_and_exponent();
        let (sign, limbs) = digits.to_u32_digits();
        Ok(BigDec { negative: sign == Sign::Minus, limbs, scale })
    }
}

/// `bigdecimal::ParseBigDecimalError`, the error of `BigDecimal::from_str`.
#[verifier::external_type_specification]
#[verifier::external_body]
pub struct ExParseBigDecimalError(bigdecimal::ParseBigDecimalError);

} // verus!
