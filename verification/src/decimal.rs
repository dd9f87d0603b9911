//! Fixed-point decimal numbers, as `rust_decimal` represents them: a signed
//! 96-bit mantissa `m` and a scale `s` in `0..=28`, standing for `m / 10^s`.
//!
//! The arithmetic itself is done by `rust_decimal`; this module holds the
//! plain-value model that the rest of the library reasons about.
use rust_decimal::Decimal;
use vstd::prelude::*;

verus! {

/// Largest magnitude a mantissa can have: `2^96 - 1`.
pub const MAX_MANTISSA: i128 = 0xFFFF_FFFF_FFFF_FFFF_FFFF_FFFFi128;

/// Largest scale (number of fractional digits).
pub const MAX_SCALE: u32 = 28;

/// `10^n`.
pub open spec fn pow10(n: nat) -> int
    decreases n,
{
    if n == 0 {
        1
    } else {
        10 * pow10((n - 1) as nat)
    }
}

/// A decimal seen as `(mantissa, scale)`.
pub type DecView = (int, nat);

/// `a < b` as numbers: `a.0 / 10^a.1 < b.0 / 10^b.1`.
pub open spec fn value_lt(a: DecView, b: DecView) -> bool {
    a.0 * pow10(b.1) < b.0 * pow10(a.1)
}

/// `a` and `b` stand for the same number.
pub open spec fn value_eq(a: DecView, b: DecView) -> bool {
    a.0 * pow10(b.1) == b.0 * pow10(a.1)
}

/// The larger of two decimals, the way `Decimal::max` picks it: `other` when
/// `self < other`, else `self`.
pub open spec fn max_view(a: DecView, b: DecView) -> DecView {
    if value_lt(a, b) {
        b
    } else {
        a
    }
}

/// A view that some `Dec` can have.
pub open spec fn view_in_range(v: DecView) -> bool {
    -MAX_MANTISSA <= v.0 <= MAX_MANTISSA && v.1 <= MAX_SCALE
}

/// Zero, `(0, 0)`.
pub open spec fn zero_view() -> DecView {
    (0, 0)
}

/// An integer with scale 0.
pub open spec fn int_view(n: int) -> DecView {
    (n, 0)
}

/// `Decimal::MAX`: `2^96 - 1` with scale 0.
pub open spec fn max_value_view() -> DecView {
    (MAX_MANTISSA as int, 0)
}

/// What `Decimal::checked_add` returns for `a` and `b` (`None` on overflow).
pub uninterp spec fn decimal_checked_add(a: DecView, b: DecView) -> Option<DecView>;

/// What `Decimal::checked_sub` returns for `a` and `b` (`None` on overflow).
pub uninterp spec fn decimal_checked_sub(a: DecView, b: DecView) -> Option<DecView>;

/// What `Decimal::checked_mul` returns for `a` and `b` (`None` on overflow).
pub uninterp spec fn decimal_checked_mul(a: DecView, b: DecView) -> Option<DecView>;

/// What `Decimal::checked_div` returns for `a` and `b` (`None` on overflow or
/// division by zero).
pub uninterp spec fn decimal_checked_div(a: DecView, b: DecView) -> Option<DecView>;


/// The text that `Decimal`'s `Display` writes for `a`.
pub uninterp spec fn decimal_display(a: DecView) -> Seq<char>;

/// What `Decimal::from_str` gives for the text `s` (`None` when it is refused).
pub uninterp spec fn decimal_parse(s: Seq<char>) -> Option<DecView>;

/// `Decimal::saturating_sub`: the checked difference, or, on overflow,
/// `Decimal::MAX` when `a` is not negative and `Decimal::MIN` when it is.
pub open spec fn saturating_sub_view(a: DecView, b: DecView) -> DecView {
    match decimal_checked_sub(a, b) {
        Some(r) => r,
        None => if a.0 >= 0 {
            max_value_view()
        } else {
            (-MAX_MANTISSA, 0)
        },
    }
}

/// A decimal number `mantissa / 10^scale`.
#[derive(Clone, Copy, Debug, PartialEq, Eq, Structural)]
pub struct Dec {
    mantissa: i128,
    scale: u32,
}

impl View for Dec {
    type V = DecView;

    closed spec fn view(&self) -> DecView {
        (self.mantissa as int, self.scale as nat)
    }
}

impl Dec {
    #[verifier::type_invariant]
    spec fn in_range(self) -> bool {
        &&& -MAX_MANTISSA <= self.mantissa <= MAX_MANTISSA
        &&& self.scale <= MAX_SCALE
    }

    /// The decimal `mantissa / 10^scale`, or `None` when the mantissa needs more
    /// than 96 bits or the scale is above 28.
    pub fn new(mantissa: i128, scale: u32) -> (r: Option<Dec>)
        ensures
            r is Some <==> view_in_range((mantissa as int, scale as nat)),
            r matches Some(d) ==> d@ == (mantissa as int, scale as nat),
    {
        if -MAX_MANTISSA <= mantissa && mantissa <= MAX_MANTISSA && scale <= MAX_SCALE {
            Some(Dec { mantissa, scale })
        } else {
            None
        }
    }

    /// Zero.
    pub fn zero() -> (r: Dec)
        ensures
            r@ == zero_view(),
    {
        Dec { mantissa: 0, scale: 0 }
    }

    /// The integer `n`, as `Decimal::from` builds it.
    pub fn from_i64(n: i64) -> (r: Dec)
        ensures
            r@ == int_view(n as int),
    {
        Dec { mantissa: n as i128, scale: 0 }
    }

    /// `Decimal::MAX`.
    pub fn max_value() -> (r: Dec)
        ensures
            r@ == max_value_view(),
    {
        Dec { mantissa: MAX_MANTISSA, scale: 0 }
    }

    /// The mantissa.
    pub fn mantissa(&self) -> (r: i128)
        ensures
            r as int == self@.0,
    {
        self.mantissa
    }

    /// The scale.
    pub fn scale(&self) -> (r: u32)
        ensures
            r as nat == self@.1,
    {
        self.scale
    }

    /// The number is zero.
    pub fn is_zero(&self) -> (r: bool)
        ensures
            r == (self@.0 == 0),
            r == value_eq(self@, zero_view()),
    {
        self.mantissa == 0
    }

    /// The number is below zero.
    pub fn is_negative(&self) -> (r: bool)
        ensures
            r == (self@.0 < 0),
            r == value_lt(self@, zero_view()),
    {
        self.mantissa < 0
    }

    /// The number is above zero.
    pub fn is_positive(&self) -> (r: bool)
        ensures
            r == (self@.0 > 0),
            r == value_lt(zero_view(), self@),
    {
        self.mantissa > 0
    }

    /// `self < other`, compared as numbers.
    ///
    /// Calls `<` of `Decimal`, whose `cmp` rescales the operand with the
    /// smaller scale and compares magnitudes and signs: a numeric comparison
    /// of `m1 / 10^s1` with `m2 / 10^s2`.
    #[verifier::external_body]
    pub(crate) fn lt(&self, other: &Dec) -> (r: bool)
        ensures
            r == value_lt(self@, other@),
    {
        Decimal::from_i128_with_scale(self.mantissa, self.scale)
            < Decimal::from_i128_with_scale(other.mantissa, other.scale)
    }

    /// `Decimal::max`: `other` when `self < other`, else `self`.
    pub fn max(self, other: Dec) -> (r: Dec)
        ensures
            r@ == max_view(self@, other@),
    {
        if self.lt(&other) {
            other
        } else {
            self
        }
    }

    /// Calls `Decimal::checked_add`.
    #[verifier::external_body]
    pub(crate) fn checked_add(&self, other: &Dec) -> (r: Option<Dec>)
        ensures
            r is Some <==> decimal_checked_add(self@, other@) is Some,
            r matches Some(d) ==> d@ == decimal_checked_add(self@, other@)->0,
    {
        let a = Decimal::from_i128_with_scale(self.mantissa, self.scale);
        let b = Decimal::from_i128_with_scale(other.mantissa, other.scale);
        a.checked_add(b).map(|d| Dec { mantissa: d.mantissa(), scale: d.scale() })
    }

    /// Calls `Decimal::checked_sub`.
    #[verifier::external_body]
    pub(crate) fn checked_sub(&self, other: &Dec) -> (r: Option<Dec>)
        ensures
            r is Some <==> decimal_checked_sub(self@, other@) is Some,
            r matches Some(d) ==> d@ == decimal_checked_sub(self@, other@)->0,
    {
        let a = Decimal::from_i128_with_scale(self.mantissa, self.scale);
        let b = Decimal::from_i128_with_scale(other.mantissa, other.scale);
        a.checked_sub(b).map(|d| Dec { mantissa: d.mantissa(), scale: d.scale() })
    }

    /// Calls `Decimal::checked_mul`.
    #[verifier::external_body]
    pub(crate) fn checked_mul(&self, other: &Dec) -> (r: Option<Dec>)
        ensures
            r is Some <==> decimal_checked_mul(self@, other@) is Some,
            r matches Some(d) ==> d@ == decimal_checked_mul(self@, other@)->0,
    {
        let a = Decimal::from_i128_with_scale(self.mantissa, self.scale);
        let b = Decimal::from_i128_with_scale(other.mantissa, other.scale);
        a.checked_mul(b).map(|d| Dec { mantissa: d.mantissa(), scale: d.scale() })
    }

    /// Calls `Decimal::checked_div`; a zero divisor gives `None`, as its source
    /// shows (`DivByZero` is mapped to `None`).
    #[verifier::external_body]
    pub(crate) fn checked_div(&self, other: &Dec) -> (r: Option<Dec>)
        ensures
            r is Some <==> decimal_checked_div(self@, other@) is Some,
            r matches Some(d) ==> d@ == decimal_checked_div(self@, other@)->0,
            other@.0 == 0 ==> r is None,
    {
        let a = Decimal::from_i128_with_scale(self.mantissa, self.scale);
        let b = Decimal::from_i128_with_scale(other.mantissa, other.scale);
        a.checked_div(b).map(|d| Dec { mantissa: d.mantissa(), scale: d.scale() })
    }

    /// Calls `Decimal::saturating_sub`, which (in its source) returns
    /// `checked_sub` when that is `Some`, else `Decimal::MAX` for a
    /// non-negative `self` and `Decimal::MIN` for a negative one.
    #[verifier::external_body]
    pub(crate) fn saturating_sub(&self, other: &Dec) -> (r: Dec)
        ensures
            r@ == saturating_sub_view(self@, other@),
    {
        let a = Decimal::from_i128_with_scale(self.mantissa, self.scale);
        let b = Decimal::from_i128_with_scale(other.mantissa, other.scale);
        let d = a.saturating_sub(b);
        Dec { mantissa: d.mantissa(), scale: d.scale() }
    }

    /// The text `Decimal`'s `Display` writes.
    #[verifier::external_body]
    pub(crate) fn to_text(&self) -> (r: String)
        ensures
            r@ == decimal_display(self@),
    {
        Decimal::from_i128_with_scale(self.mantissa, self.scale).to_string()
    }

    /// Calls `Decimal::from_str`.
    #[verifier::external_body]
    pub(crate) fn parse(s: &str) -> (r: Result<Dec, rust_decimal::Error>)
        ensures
            r is Ok <==> decimal_parse(s@) is Some,
            r matches Ok(d) ==> d@ == decimal_parse(s@)->0,
    {
        match s.parse::<Decimal>() {
            Ok(d) => Ok(Dec { mantissa: d.mantissa(), scale: d.scale() }),
            Err(e) => Err(e),
        }
    }
}

/// `Decimal::ONE`.
pub open spec fn one_view() -> DecView {
    (1, 0)
}

/// `Decimal::TWO`.
pub open spec fn two_view() -> DecView {
    (2, 0)
}

/// The rounds of the Newton iteration that `MathematicalOps::sqrt` runs for
/// the square root of `s`, from the estimate `result` whose predecessor was
/// `last`, after `rounds` rounds: it stops with `result` once `last` equals
/// it; else it counts a round, which must be below 1000 (the assertion
/// there, `None` where it fails), and moves to `(result + s / result) / 2`
/// (`None` where an operator of `Decimal` would panic).
pub open spec fn sqrt_rounds(s: DecView, result: DecView, last: DecView, rounds: nat) -> Option<
    DecView,
>
    decreases 1000 - rounds,
{
    if value_eq(last, result) {
        Some(result)
    } else if rounds + 1 >= 1000 {
        None
    } else {
        match decimal_checked_div(s, result) {
            None => None,
            Some(q) => match decimal_checked_add(result, q) {
                None => None,
                Some(sum) => match decimal_checked_div(sum, two_view()) {
                    None => None,
                    Some(next) => sqrt_rounds(s, next, result, rounds + 1),
                },
            },
        }
    }
}

/// What `MathematicalOps::sqrt` does for `s`, the whole of its source in
/// terms of `Decimal`'s operators: no root (`Some(None)`) for a negative
/// number, zero for zero, else the Newton iteration started from `s / 2`
/// (or `s` where that is zero) with `s / 2 + 1` as the previous estimate.
/// The outer `None` marks where it panics: an operator that overflows, or
/// the 1000-round assertion.
pub open spec fn sqrt_spec(s: DecView) -> Option<Option<DecView>> {
    if s.0 < 0 {
        Some(None)
    } else if s.0 == 0 {
        Some(Some(zero_view()))
    } else {
        match decimal_checked_div(s, two_view()) {
            None => None,
            Some(half) => {
                let start = if half.0 == 0 {
                    s
                } else {
                    half
                };
                match decimal_checked_add(start, one_view()) {
                    None => None,
                    Some(last) => match sqrt_rounds(s, start, last, 0) {
                        None => None,
                        Some(r) => Some(Some(r)),
                    },
                }
            },
        }
    }
}

impl Dec {
    /// `self == other`, compared as numbers (as `Decimal`'s `==` compares).
    pub fn value_equals(&self, other: &Dec) -> (r: bool)
        ensures
            r == value_eq(self@, other@),
    {
        !self.lt(other) && !other.lt(self)
    }

    /// The square root as `MathematicalOps::sqrt` computes it, `None` where
    /// that would panic; `Some(None)` for a negative number.
    pub fn try_sqrt(&self) -> (r: Option<Option<Dec>>)
        ensures
            r is Some <==> sqrt_spec(self@) is Some,
            r matches Some(o) ==> (o is Some <==> sqrt_spec(self@)->0 is Some),
            r matches Some(Some(d)) ==> d@ == sqrt_spec(self@)->0->0,
    {
        if self.is_negative() {
            return Some(None);
        }
        if self.is_zero() {
            return Some(Some(Dec::zero()));
        }
        let two = Dec::from_i64(2);
        let one = Dec::from_i64(1);
        let half = match self.checked_div(&two) {
            Some(h) => h,
            None => return None,
        };
        let start = if half.is_zero() {
            *self
        } else {
            half
        };
        let mut last = match start.checked_add(&one) {
            Some(l) => l,
            None => return None,
        };
        let mut result = start;
        let ghost s = self@;
        let ghost target = sqrt_rounds(s, start@, last@, 0);
        let mut rounds: u32 = 0;
        while !last.value_equals(&result)
            invariant
                rounds < 1000,
                s == self@,
                two@ == two_view(),
                sqrt_rounds(s, result@, last@, rounds as nat) == target,
                sqrt_spec(s) == (match target {
                    None => None,
                    Some(t) => Some(Some(t)),
                }),
            decreases 1000 - rounds,
        {
            if rounds + 1 >= 1000 {
                return None;
            }
            rounds = rounds + 1;
            let q = match self.checked_div(&result) {
                Some(q) => q,
                None => return None,
            };
            let sum = match result.checked_add(&q) {
                Some(v) => v,
                None => return None,
            };
            let next = match sum.checked_div(&two) {
                Some(v) => v,
                None => return None,
            };
            last = result;
            result = next;
        }
        Some(Some(result))
    }
}

/// `rust_decimal::Error`, the error of `Decimal::from_str`.
#[verifier::external_type_specification]
#[verifier::external_body]
pub struct ExDecimalError(rust_decimal::Error);

} // verus!
