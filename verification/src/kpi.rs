//! Risk metrics of a portfolio's value history: maximum drawdown, Sharpe
//! ratio and Sortino ratio, and the profit-and-loss figures of a position.
//!
//! Every figure is computed with `rust_decimal` arithmetic. Each spec below
//! walks the history the way the computation does and yields `None` exactly
//! where an operator of `Decimal` would panic (an overflow, or a division by
//! zero), so that the functions that panic there can require `is Some`.
use crate::decimal::{
    decimal_checked_add, decimal_checked_div, decimal_checked_mul, decimal_checked_sub,
    int_view, max_value_view, max_view, pow10, sqrt_spec, value_lt, zero_view, Dec, DecView,
};
use crate::models::UserKpi;
use crate::time::Timestamp;
use crate::types::PerformanceMetric;
use vstd::prelude::*;

verus! {

/// Why a metric could not be computed.
#[derive(Debug, PartialEq, Eq)]
pub enum KpiError {
    InvalidData(String),
    CalculationError(String),
}

/// The causes of a `KpiError`, as the specs name them.
#[derive(Clone, Copy, Debug, PartialEq, Eq, Structural)]
pub enum KpiFailure {
    NegativeValue,
    ZeroPreviousValue,
    StdDevFailed,
    DownsideDevFailed,
    NonPositiveSharePrice,
    NegativeShareBalance,
}

/// The message for a negative portfolio value.
pub open spec fn negative_value_msg() -> Seq<char> {
    "Portfolio value cannot be negative"@
}

/// The message for a return that would divide by a zero value.
pub open spec fn zero_previous_msg() -> Seq<char> {
    "Previous portfolio value is zero, cannot calculate return"@
}

/// The message for a standard deviation that could not be computed.
pub open spec fn std_dev_msg() -> Seq<char> {
    "Failed to compute standard deviation"@
}

/// The message for a downside deviation that could not be computed.
pub open spec fn downside_dev_msg() -> Seq<char> {
    "Failed to compute downside deviation"@
}

/// The message for a share price that is not positive.
pub open spec fn share_price_msg() -> Seq<char> {
    "Current share price cannot be zero or negative"@
}

/// The message for a negative share balance.
pub open spec fn share_balance_msg() -> Seq<char> {
    "Share balance cannot be negative"@
}

impl KpiError {
    /// The error that reports `f`.
    pub open spec fn reports(self, f: KpiFailure) -> bool {
        match f {
            KpiFailure::NegativeValue => self matches KpiError::InvalidData(m) && m@
                == negative_value_msg(),
            KpiFailure::ZeroPreviousValue => self matches KpiError::InvalidData(m) && m@
                == zero_previous_msg(),
            KpiFailure::StdDevFailed => self matches KpiError::CalculationError(m) && m@
                == std_dev_msg(),
            KpiFailure::DownsideDevFailed => self matches KpiError::CalculationError(m) && m@
                == downside_dev_msg(),
            KpiFailure::NonPositiveSharePrice => self matches KpiError::InvalidData(m) && m@
                == share_price_msg(),
            KpiFailure::NegativeShareBalance => self matches KpiError::InvalidData(m) && m@
                == share_balance_msg(),
        }
    }

    /// Builds the error that reports `f`.
    pub fn from_failure(f: KpiFailure) -> (r: KpiError)
        ensures
            r.reports(f),
    {
        match f {
            KpiFailure::NegativeValue => KpiError::InvalidData(
                "Portfolio value cannot be negative".to_owned(),
            ),
            KpiFailure::ZeroPreviousValue => KpiError::InvalidData(
                "Previous portfolio value is zero, cannot calculate return".to_owned(),
            ),
            KpiFailure::StdDevFailed => KpiError::CalculationError(
                "Failed to compute standard deviation".to_owned(),
            ),
            KpiFailure::DownsideDevFailed => KpiError::CalculationError(
                "Failed to compute downside deviation".to_owned(),
            ),
            KpiFailure::NonPositiveSharePrice => KpiError::InvalidData(
                "Current share price cannot be zero or negative".to_owned(),
            ),
            KpiFailure::NegativeShareBalance => KpiError::InvalidData(
                "Share balance cannot be negative".to_owned(),
            ),
        }
    }
}

/// `r` is the result that `s` describes.
pub open spec fn result_is(r: Result<Dec, KpiError>, s: Result<DecView, KpiFailure>) -> bool {
    match (r, s) {
        (Ok(d), Ok(v)) => d@ == v,
        (Err(e), Err(f)) => e.reports(f),
        _ => false,
    }
}

/// The values of a `(timestamp, value)` history.
pub open spec fn values_of(history: Seq<(Timestamp, Dec)>) -> Seq<DecView> {
    history.map_values(|p: (Timestamp, Dec)| p.1@)
}

/// Days in a year, the annualization factor of daily returns.
pub open spec fn days_per_year() -> DecView {
    int_view(365)
}

/// `Decimal::from_f64(365.0_f64.sqrt())`, the annualization factor of a
/// daily deviation: 19.1049731745428.
pub open spec fn sqrt_days_per_year() -> DecView {
    (191049731745428, 13)
}

fn sqrt_days_per_year_dec() -> (r: Dec)
    ensures
        r@ == sqrt_days_per_year(),
{
    Dec::new(191049731745428, 13).unwrap()
}

// ---------------------------------------------------------------------------
// Maximum drawdown

/// One step of the drawdown walk over `(peak, max_drawdown)`.
pub open spec fn drawdown_step(st: (DecView, DecView), v: DecView) -> Option<
    Result<(DecView, DecView), KpiFailure>,
> {
    let (peak, max_dd) = st;
    if v.0 < 0 {
        Some(Err(KpiFailure::NegativeValue))
    } else if value_lt(peak, v) {
        Some(Ok((v, max_dd)))
    } else if peak.0 > 0 {
        match decimal_checked_sub(peak, v) {
            None => None,
            Some(diff) => match decimal_checked_div(diff, peak) {
                None => None,
                Some(ratio) => match decimal_checked_mul(ratio, int_view(100)) {
                    None => None,
                    Some(dd) => Some(Ok((peak, max_view(max_dd, dd)))),
                },
            },
        }
    } else {
        Some(Ok(st))
    }
}

/// The drawdown walk over `vals`, from the state `st`.
pub open spec fn drawdown_walk(vals: Seq<DecView>, st: (DecView, DecView)) -> Option<
    Result<(DecView, DecView), KpiFailure>,
>
    decreases vals.len(),
{
    if vals.len() == 0 {
        Some(Ok(st))
    } else {
        match drawdown_step(st, vals[0]) {
            None => None,
            Some(Err(f)) => Some(Err(f)),
            Some(Ok(st2)) => drawdown_walk(vals.drop_first(), st2),
        }
    }
}

/// The maximum drawdown, in percent, of a chronological value history: the
/// largest `(peak - v) / peak * 100` over the values `v` that do not exceed
/// the highest earlier value `peak`; an error at the first negative value;
/// `None` where `Decimal` arithmetic overflows.
pub open spec fn max_drawdown_spec(vals: Seq<DecView>) -> Option<Result<DecView, KpiFailure>> {
    match drawdown_walk(vals, (zero_view(), zero_view())) {
        None => None,
        Some(Err(f)) => Some(Err(f)),
        Some(Ok(st)) => Some(Ok(st.1)),
    }
}

/// `10^n` is positive.
proof fn lemma_pow10_positive(n: nat)
    ensures
        pow10(n) > 0,
    decreases n,
{
    if n > 0 {
        lemma_pow10_positive((n - 1) as nat);
    }
}

/// The walk from a peak below the first value (or from a zero peak over a
/// zero first value) through rising values keeps the drawdown at zero.
proof fn lemma_rising_walk(vals: Seq<DecView>, peak: DecView)
    requires
        forall|i: int| 0 <= i < vals.len() ==> (#[trigger] vals[i]).0 >= 0,
        forall|i: int, j: int| 0 <= i < j < vals.len() ==> value_lt(vals[i], vals[j]),
        peak.0 >= 0,
        vals.len() > 0 ==> (value_lt(peak, vals[0]) || (peak.0 == 0 && vals[0].0 == 0)),
    ensures
        drawdown_walk(vals, (peak, zero_view())) matches Some(Ok(st)) && st.1 == zero_view(),
    decreases vals.len(),
{
    if vals.len() > 0 {
        let v = vals[0];
        let rest = vals.drop_first();
        assert forall|i: int| 0 <= i < rest.len() implies (#[trigger] rest[i]).0 >= 0 by {
            assert(rest[i] == vals[i + 1]);
        }
        assert forall|i: int, j: int| 0 <= i < j < rest.len() implies value_lt(rest[i], rest[j]) by {
            assert(rest[i] == vals[i + 1]);
            assert(rest[j] == vals[j + 1]);
        }
        if value_lt(peak, v) {
            if rest.len() > 0 {
                assert(rest[0] == vals[1]);
                assert(value_lt(vals[0], vals[1]));
            }
            lemma_rising_walk(rest, v);
        } else {
            if rest.len() > 0 {
                let w = vals[1];
                assert(rest[0] == w);
                assert(value_lt(vals[0], vals[1]));
                lemma_pow10_positive(v.1);
                lemma_pow10_positive(peak.1);
                assert(w.0 * pow10(v.1) > 0);
                assert(w.0 > 0) by (nonlinear_arith)
                    requires
                        w.0 * pow10(v.1) > 0,
                        pow10(v.1) > 0,
                ;
                assert(w.0 * pow10(peak.1) > 0) by (nonlinear_arith)
                    requires
                        w.0 > 0,
                        pow10(peak.1) > 0,
                ;
                assert(value_lt(peak, w));
            }
            lemma_rising_walk(rest, peak);
        }
    }
}

/// A history of values that rise from one to the next, starting from a
/// value that is not negative, has no drawdown.
pub proof fn lemma_rising_history_has_no_drawdown(vals: Seq<DecView>)
    requires
        vals.len() > 0 ==> vals[0].0 >= 0,
        forall|i: int, j: int| 0 <= i < j < vals.len() ==> value_lt(vals[i], vals[j]),
    ensures
        max_drawdown_spec(vals) == Some(Ok::<DecView, KpiFailure>(zero_view())),
{
    assert forall|i: int| 0 <= i < vals.len() implies (#[trigger] vals[i]).0 >= 0 by {
        if i > 0 {
            let a = vals[0];
            let b = vals[i];
            assert(value_lt(a, b));
            lemma_pow10_positive(a.1);
            lemma_pow10_positive(b.1);
            assert(a.0 * pow10(b.1) >= 0) by (nonlinear_arith)
                requires
                    a.0 >= 0,
                    pow10(b.1) > 0,
            ;
            assert(b.0 >= 0) by (nonlinear_arith)
                requires
                    b.0 * pow10(a.1) > a.0 * pow10(b.1),
                    a.0 * pow10(b.1) >= 0,
                    pow10(a.1) > 0,
            ;
        }
    }
    if vals.len() > 0 {
        let v = vals[0];
        if v.0 > 0 {
            lemma_pow10_positive(v.1);
            assert(pow10(0) == 1);
            let z = zero_view();
            assert(z.0 == 0 && z.1 == 0);
            assert(z.0 * pow10(v.1) == 0) by (nonlinear_arith)
                requires
                    z.0 == 0,
            ;
            assert(v.0 * pow10(z.1) == v.0) by (nonlinear_arith)
                requires
                    pow10(z.1) == 1,
            ;
            assert(value_lt(zero_view(), v));
        }
    }
    lemma_rising_walk(vals, zero_view());
}

/// The fall from `peak` to `v`, in percent of `peak`:
/// `(peak - v) / peak * 100`; `None` where `Decimal` arithmetic overflows.
pub open spec fn drawdown_from(peak: DecView, v: DecView) -> Option<DecView> {
    match decimal_checked_sub(peak, v) {
        None => None,
        Some(diff) => match decimal_checked_div(diff, peak) {
            None => None,
            Some(ratio) => decimal_checked_mul(ratio, int_view(100)),
        },
    }
}

/// `vals[k]` is the running peak at `vals[i]`: the first of the highest
/// values among `vals[0..=i]` (every value before it is lower, none up to
/// `i` is higher).
pub open spec fn is_first_peak(vals: Seq<DecView>, i: int, k: int) -> bool {
    &&& 0 <= k <= i < vals.len()
    &&& forall|j: int| 0 <= j <= i ==> !value_lt(vals[k], #[trigger] vals[j])
    &&& forall|j: int| 0 <= j < k ==> value_lt(#[trigger] vals[j], vals[k])
}

/// `a <= b < c` gives `a < c`.
proof fn lemma_value_le_lt(a: DecView, b: DecView, c: DecView)
    requires
        !value_lt(b, a),
        value_lt(b, c),
    ensures
        value_lt(a, c),
{
    lemma_pow10_positive(a.1);
    lemma_pow10_positive(b.1);
    lemma_pow10_positive(c.1);
    let pa = pow10(a.1);
    let pb = pow10(b.1);
    let pc = pow10(c.1);
    assert(a.0 * pc < c.0 * pa) by (nonlinear_arith)
        requires
            pa > 0,
            pb > 0,
            pc > 0,
            a.0 * pb <= b.0 * pa,
            b.0 * pc < c.0 * pb,
    {
        assert(a.0 * pb * pc <= b.0 * pa * pc);
        assert(b.0 * pc * pa < c.0 * pb * pa);
        assert(a.0 * pc * pb < c.0 * pa * pb);
    }
}

/// A value above a value whose mantissa is not negative has a positive
/// mantissa.
proof fn lemma_above_nonnegative_is_positive(a: DecView, b: DecView)
    requires
        a.0 >= 0,
        value_lt(a, b),
    ensures
        b.0 > 0,
{
    lemma_pow10_positive(a.1);
    lemma_pow10_positive(b.1);
    let pa = pow10(a.1);
    let pb = pow10(b.1);
    assert(b.0 > 0) by (nonlinear_arith)
        requires
            pa > 0,
            pb > 0,
            a.0 >= 0,
            a.0 * pb < b.0 * pa,
    {
        assert(a.0 * pb >= 0);
    }
}

/// Of two first peaks at the same index, neither comes before the other.
proof fn lemma_first_peak_unique(vals: Seq<DecView>, i: int, k1: int, k2: int)
    requires
        is_first_peak(vals, i, k1),
        is_first_peak(vals, i, k2),
    ensures
        k1 == k2,
{
    if k1 < k2 {
        assert(value_lt(vals[k1], vals[k2]));
        assert(!value_lt(vals[k1], vals[k2]));
    } else if k2 < k1 {
        assert(value_lt(vals[k2], vals[k1]));
        assert(!value_lt(vals[k2], vals[k1]));
    }
}

proof fn lemma_drawdown_walk_push(xs: Seq<DecView>, st: (DecView, DecView), v: DecView)
    ensures
        drawdown_walk(xs.push(v), st) == (match drawdown_walk(xs, st) {
            None => None,
            Some(Err(f)) => Some(Err(f)),
            Some(Ok(s)) => drawdown_step(s, v),
        }),
    decreases xs.len(),
{
    if xs.len() == 0 {
        assert(xs.push(v).drop_first() =~= Seq::<DecView>::empty());
        assert(xs.push(v)[0] == v);
        match drawdown_step(st, v) {
            None => {},
            Some(Err(_)) => {},
            Some(Ok(s2)) => {
                assert(drawdown_walk(Seq::<DecView>::empty(), s2) == Some(
                    Ok::<(DecView, DecView), KpiFailure>(s2),
                ));
            },
        }
    } else {
        assert(xs.push(v).drop_first() =~= xs.drop_first().push(v));
        assert(xs.push(v)[0] == xs[0]);
        match drawdown_step(st, xs[0]) {
            None => {},
            Some(Err(_)) => {},
            Some(Ok(s2)) => {
                lemma_drawdown_walk_push(xs.drop_first(), s2, v);
            },
        }
    }
}

/// What the drawdown walk over `vals[0..n]` keeps: the values seen are not
/// negative; a zero peak means every value seen is zero; a positive peak is
/// `vals[k]`, the first peak at `n - 1`; every fall from a positive first
/// peak is at most the drawdown kept, which is zero or one of those falls.
spec fn drawdown_prefix_holds(vals: Seq<DecView>, n: int, st: (DecView, DecView), k: int) -> bool {
    let (peak, dd) = st;
    &&& forall|j: int| 0 <= j < n ==> (#[trigger] vals[j]).0 >= 0
    &&& peak.0 >= 0
    &&& peak.0 == 0 ==> peak == zero_view() && forall|j: int| 0 <= j < n ==> (#[trigger] vals[j]).0
        == 0
    &&& peak.0 > 0 ==> is_first_peak(vals, n - 1, k) && peak == vals[k]
    &&& forall|i: int, k2: int|
        #![trigger is_first_peak(vals, i, k2)]
        0 <= k2 < i < n && is_first_peak(vals, i, k2) && vals[k2].0 > 0 ==> (drawdown_from(
            vals[k2],
            vals[i],
        ) is Some && !value_lt(dd, drawdown_from(vals[k2], vals[i])->0))
    &&& dd == zero_view() || exists|i: int, k2: int|
        #![trigger is_first_peak(vals, i, k2)]
        0 <= k2 < i < n && is_first_peak(vals, i, k2) && vals[k2].0 > 0 && drawdown_from(
            vals[k2],
            vals[i],
        ) == Some(dd)
}

#[verifier::rlimit(40)]
proof fn lemma_drawdown_prefix(vals: Seq<DecView>, n: nat) -> (k: int)
    requires
        n <= vals.len(),
        drawdown_walk(vals.take(n as int), (zero_view(), zero_view())) matches Some(Ok(_)),
    ensures
        drawdown_walk(vals.take(n as int), (zero_view(), zero_view())) matches Some(Ok(st))
            && drawdown_prefix_holds(vals, n as int, st, k),
    decreases n,
{
    let init = (zero_view(), zero_view());
    if n == 0 {
        assert(vals.take(0) =~= Seq::<DecView>::empty());
        0
    } else {
        let m = (n - 1) as nat;
        let v = vals[m as int];
        assert(vals.take(n as int) =~= vals.take(m as int).push(v));
        lemma_drawdown_walk_push(vals.take(m as int), init, v);
        let k0 = lemma_drawdown_prefix(vals, m);
        let st = drawdown_walk(vals.take(m as int), init)->Some_0->Ok_0;
        let (peak, dd) = st;
        let st2 = drawdown_walk(vals.take(n as int), init)->Some_0->Ok_0;
        assert(drawdown_step(st, v) == Some(Ok::<(DecView, DecView), KpiFailure>(st2)));
        assert(v.0 >= 0);
        if value_lt(peak, v) {
            assert(st2 == (v, dd));
            lemma_above_nonnegative_is_positive(peak, v);
            assert forall|j: int| 0 <= j < m implies value_lt(#[trigger] vals[j], v) by {
                if peak.0 > 0 {
                    assert(!value_lt(vals[k0], vals[j]));
                    lemma_value_le_lt(vals[j], peak, v);
                } else {
                    let w = vals[j];
                    assert(w.0 == 0);
                    lemma_pow10_positive(w.1);
                    let pj = pow10(w.1);
                    let pv = pow10(v.1);
                    assert(v.0 * pj > 0 && w.0 * pv == 0) by (nonlinear_arith)
                        requires
                            v.0 > 0,
                            pj > 0,
                            w.0 == 0,
                    ;
                }
            }
            assert(is_first_peak(vals, m as int, m as int));
            assert forall|i: int, k2: int|
                #![trigger is_first_peak(vals, i, k2)]
                0 <= k2 < i < n && is_first_peak(vals, i, k2) && vals[k2].0 > 0 implies (
                drawdown_from(vals[k2], vals[i]) is Some && !value_lt(
                    dd,
                    drawdown_from(vals[k2], vals[i])->0,
                )) by {
                if i == m {
                    assert(!value_lt(vals[k2], vals[i]));
                    assert(value_lt(vals[k2], v));
                }
            }
            if dd != zero_view() {
                let (wi, wk) = choose|i: int, k2: int|
                    #![trigger is_first_peak(vals, i, k2)]
                    0 <= k2 < i < m && is_first_peak(vals, i, k2) && vals[k2].0 > 0
                        && drawdown_from(vals[k2], vals[i]) == Some(dd);
                assert(is_first_peak(vals, wi, wk));
            }
            m as int
        } else if peak.0 > 0 {
            let ddv = drawdown_from(peak, v)->Some_0;
            assert(drawdown_from(peak, v) == Some(ddv));
            assert(st2 == (peak, max_view(dd, ddv)));
            assert(is_first_peak(vals, m as int, k0));
            let nd = max_view(dd, ddv);
            assert forall|i: int, k2: int|
                #![trigger is_first_peak(vals, i, k2)]
                0 <= k2 < i < n && is_first_peak(vals, i, k2) && vals[k2].0 > 0 implies (
                drawdown_from(vals[k2], vals[i]) is Some && !value_lt(
                    nd,
                    drawdown_from(vals[k2], vals[i])->0,
                )) by {
                if i == m {
                    lemma_first_peak_unique(vals, i, k0, k2);
                } else {
                    let x = drawdown_from(vals[k2], vals[i])->0;
                    assert(!value_lt(dd, x));
                    if value_lt(dd, ddv) {
                        lemma_value_le_lt(x, dd, ddv);
                    }
                }
            }
            if value_lt(dd, ddv) {
                assert(is_first_peak(vals, m as int, k0));
            } else if dd != zero_view() {
                let (wi, wk) = choose|i: int, k2: int|
                    #![trigger is_first_peak(vals, i, k2)]
                    0 <= k2 < i < m && is_first_peak(vals, i, k2) && vals[k2].0 > 0
                        && drawdown_from(vals[k2], vals[i]) == Some(dd);
                assert(is_first_peak(vals, wi, wk));
            }
            k0
        } else {
            assert(st2 == st);
            assert(peak == zero_view());
            assert(pow10(0) == 1);
            let pv = pow10(v.1);
            assert(v.0 * 1 == v.0 && 0 * pv == 0) by (nonlinear_arith);
            assert(v.0 == 0);
            assert forall|i: int, k2: int|
                #![trigger is_first_peak(vals, i, k2)]
                0 <= k2 < i < n && is_first_peak(vals, i, k2) && vals[k2].0 > 0 implies (
                drawdown_from(vals[k2], vals[i]) is Some && !value_lt(
                    dd,
                    drawdown_from(vals[k2], vals[i])->0,
                )) by {
                if i == m {
                    assert(vals[k2].0 == 0);
                }
            }
            if dd != zero_view() {
                let (wi, wk) = choose|i: int, k2: int|
                    #![trigger is_first_peak(vals, i, k2)]
                    0 <= k2 < i < m && is_first_peak(vals, i, k2) && vals[k2].0 > 0
                        && drawdown_from(vals[k2], vals[i]) == Some(dd);
                assert(is_first_peak(vals, wi, wk));
            }
            k0
        }
    }
}

/// The maximum drawdown is the largest fall from the running peak: every
/// value is non-negative; for each value, the fall `(peak - v) / peak * 100`
/// from the highest value up to it (the first of the highest, where it is
/// positive) is at most the result, and the result is one of those falls, or
/// zero when there is none.
pub proof fn lemma_max_drawdown_is_largest_fall_from_peak(vals: Seq<DecView>, d: DecView)
    requires
        max_drawdown_spec(vals) == Some(Ok::<DecView, KpiFailure>(d)),
    ensures
        forall|i: int| 0 <= i < vals.len() ==> (#[trigger] vals[i]).0 >= 0,
        forall|i: int, k: int|
            #![trigger is_first_peak(vals, i, k)]
            0 <= k < i < vals.len() && is_first_peak(vals, i, k) && vals[k].0 > 0 ==> (
            drawdown_from(vals[k], vals[i]) is Some && !value_lt(
                d,
                drawdown_from(vals[k], vals[i])->0,
            )),
        d == zero_view() || exists|i: int, k: int|
            #![trigger is_first_peak(vals, i, k)]
            0 <= k < i < vals.len() && is_first_peak(vals, i, k) && vals[k].0 > 0
                && drawdown_from(vals[k], vals[i]) == Some(d),
{
    assert(vals.take(vals.len() as int) =~= vals);
    let _k = lemma_drawdown_prefix(vals, vals.len());
}

proof fn lemma_drawdown_walk_err(xs: Seq<DecView>, st: (DecView, DecView))
    ensures
        drawdown_walk(xs, st) matches Some(Err(f)) ==> f == KpiFailure::NegativeValue && exists|
            i: int,
        | 0 <= i < xs.len() && (#[trigger] xs[i]).0 < 0,
    decreases xs.len(),
{
    if xs.len() > 0 {
        let rest = xs.drop_first();
        if let Some(Ok(st2)) = drawdown_step(st, xs[0]) {
            lemma_drawdown_walk_err(rest, st2);
            if let Some(Err(f)) = drawdown_walk(rest, st2) {
                let j = choose|j: int| 0 <= j < rest.len() && (#[trigger] rest[j]).0 < 0;
                assert(xs[j + 1] == rest[j]);
            }
        }
    }
}

/// The maximum drawdown is refused only for a negative value: its one error
/// is `NegativeValue`, and it comes only where some value is negative.
pub proof fn lemma_drawdown_refuses_only_negative_values(vals: Seq<DecView>)
    ensures
        max_drawdown_spec(vals) matches Some(Err(f)) ==> f == KpiFailure::NegativeValue && exists|
            i: int,
        | 0 <= i < vals.len() && (#[trigger] vals[i]).0 < 0,
{
    lemma_drawdown_walk_err(vals, (zero_view(), zero_view()));
}

fn max_drawdown_checked(history: &[(Timestamp, Dec)]) -> (r: Option<Result<Dec, KpiError>>)
    ensures
        r is Some <==> max_drawdown_spec(values_of(history@)) is Some,
        r matches Some(res) ==> result_is(res, max_drawdown_spec(values_of(history@))->0),
{
    let ghost vals = values_of(history@);
    let mut peak = Dec::zero();
    let mut max_dd = Dec::zero();
    let hundred = Dec::from_i64(100);
    let mut i: usize = 0;
    proof {
        assert(vals.skip(0) =~= vals);
    }
    while i < history.len()
        invariant
            i <= history.len(),
            vals == values_of(history@),
            hundred@ == int_view(100),
            drawdown_walk(vals.skip(i as int), (peak@, max_dd@)) == drawdown_walk(
                vals,
                (zero_view(), zero_view()),
            ),
        decreases history.len() - i,
    {
        let v = history[i].1;
        proof {
            assert(vals.skip(i as int).drop_first() =~= vals.skip(i + 1));
            assert(vals.skip(i as int)[0] == v@);
        }
        if v.is_negative() {
            return Some(Err(KpiError::from_failure(KpiFailure::NegativeValue)));
        }
        if peak.lt(&v) {
            peak = v;
        } else if peak.is_positive() {
            let diff = match peak.checked_sub(&v) {
                Some(d) => d,
                None => return None,
            };
            let ratio = match diff.checked_div(&peak) {
                Some(d) => d,
                None => return None,
            };
            let dd = match ratio.checked_mul(&hundred) {
                Some(d) => d,
                None => return None,
            };
            max_dd = max_dd.max(dd);
        }
        i = i + 1;
    }
    Some(Ok(max_dd))
}

/// The maximum drawdown, in percent, of `portfolio_history`, which must be in
/// chronological order (oldest first).
pub fn calculate_max_drawdown(portfolio_history: &[(Timestamp, Dec)]) -> (r: Result<Dec, KpiError>)
    requires
        max_drawdown_spec(values_of(portfolio_history@)) is Some,
    ensures
        result_is(r, max_drawdown_spec(values_of(portfolio_history@))->0),
{
    match max_drawdown_checked(portfolio_history) {
        Some(r) => r,
        None => {
            proof {
                assert(false);
            }
            Ok(Dec::zero())
        },
    }
}

/// `calculate_max_drawdown` where `Decimal` arithmetic does not overflow, and
/// `None` where it would.
pub fn try_calculate_max_drawdown(portfolio_history: &[(Timestamp, Dec)]) -> (r: Option<
    Result<Dec, KpiError>,
>)
    ensures
        r is Some <==> max_drawdown_spec(values_of(portfolio_history@)) is Some,
        r matches Some(res) ==> result_is(
            res,
            max_drawdown_spec(values_of(portfolio_history@))->0,
        ),
{
    max_drawdown_checked(portfolio_history)
}

// ---------------------------------------------------------------------------
// Daily returns

/// The return from `prev` to `v`: `(v - prev) / prev`.
pub open spec fn return_rate(prev: DecView, v: DecView) -> Option<DecView> {
    match decimal_checked_sub(v, prev) {
        None => None,
        Some(diff) => decimal_checked_div(diff, prev),
    }
}

/// `a + b * b`, the way a running sum of squares grows.
pub open spec fn add_square(a: DecView, b: DecView) -> Option<DecView> {
    match decimal_checked_mul(b, b) {
        None => None,
        Some(sq) => decimal_checked_add(a, sq),
    }
}

fn return_rate_exec(prev: &Dec, v: &Dec) -> (r: Option<Dec>)
    ensures
        r is Some <==> return_rate(prev@, v@) is Some,
        r matches Some(d) ==> d@ == return_rate(prev@, v@)->0,
{
    match v.checked_sub(prev) {
        Some(diff) => diff.checked_div(prev),
        None => None,
    }
}

fn add_square_exec(a: &Dec, b: &Dec) -> (r: Option<Dec>)
    ensures
        r is Some <==> add_square(a@, b@) is Some,
        r matches Some(d) ==> d@ == add_square(a@, b@)->0,
{
    match b.checked_mul(b) {
        Some(sq) => a.checked_add(&sq),
        None => None,
    }
}

// ---------------------------------------------------------------------------
// Sharpe ratio

/// Running state of the Sharpe walk: previous value, sum of returns, sum of
/// squared returns, number of returns.
pub type SharpeAcc = (DecView, DecView, DecView, int);

/// One step of the Sharpe walk.
pub open spec fn sharpe_step(acc: SharpeAcc, v: DecView) -> Option<Result<SharpeAcc, KpiFailure>> {
    let (prev, sum, sum_sq, count) = acc;
    if v.0 < 0 {
        Some(Err(KpiFailure::NegativeValue))
    } else if prev.0 == 0 {
        Some(Err(KpiFailure::ZeroPreviousValue))
    } else {
        match return_rate(prev, v) {
            None => None,
            Some(r) => match decimal_checked_add(sum, r) {
                None => None,
                Some(sum2) => match add_square(sum_sq, r) {
                    None => None,
                    Some(sq2) => Some(Ok((v, sum2, sq2, count + 1))),
                },
            },
        }
    }
}

/// The Sharpe walk over `vals` from `acc`.
pub open spec fn sharpe_walk(vals: Seq<DecView>, acc: SharpeAcc) -> Option<
    Result<SharpeAcc, KpiFailure>,
>
    decreases vals.len(),
{
    if vals.len() == 0 {
        Some(Ok(acc))
    } else {
        match sharpe_step(acc, vals[0]) {
            None => None,
            Some(Err(f)) => Some(Err(f)),
            Some(Ok(acc2)) => sharpe_walk(vals.drop_first(), acc2),
        }
    }
}

/// The Sharpe ratio once the returns are summed: mean `m = sum / n`,
/// variance `sum_sq / n - m * m`, and, when the variance is positive,
/// `(365 m - risk_free_rate) / (sqrt(variance) * sqrt(365))`; zero when it is not.
pub open spec fn sharpe_finish(acc: SharpeAcc, risk_free_rate: DecView) -> Option<
    Result<DecView, KpiFailure>,
> {
    let (prev, sum, sum_sq, count) = acc;
    if count == 0 {
        Some(Ok(zero_view()))
    } else {
        let n = int_view(count);
        match decimal_checked_div(sum, n) {
            None => None,
            Some(mean) => match decimal_checked_div(sum_sq, n) {
                None => None,
                Some(mean_sq) => match decimal_checked_mul(mean, mean) {
                    None => None,
                    Some(mean2) => match decimal_checked_sub(mean_sq, mean2) {
                        None => None,
                        Some(variance) => if !value_lt(zero_view(), variance) {
                            Some(Ok(zero_view()))
                        } else {
                            match sqrt_spec(variance) {
                                None => None,
                                Some(None) => Some(Err(KpiFailure::StdDevFailed)),
                                Some(Some(std_dev)) => match decimal_checked_mul(
                                    mean,
                                    days_per_year(),
                                ) {
                                    None => None,
                                    Some(ann_ret) => match decimal_checked_mul(
                                        std_dev,
                                        sqrt_days_per_year(),
                                    ) {
                                        None => None,
                                        Some(ann_std) => match decimal_checked_sub(
                                            ann_ret,
                                            risk_free_rate,
                                        ) {
                                            None => None,
                                            Some(excess) => match decimal_checked_div(
                                                excess,
                                                ann_std,
                                            ) {
                                                None => None,
                                                Some(ratio) => Some(Ok(ratio)),
                                            },
                                        },
                                    },
                                },
                            }
                        },
                    },
                },
            },
        }
    }
}

/// The annualized Sharpe ratio of a chronological value history: zero for
/// fewer than two values; an error at the first negative value or at a zero
/// value that a return would divide by; `None` where `Decimal` arithmetic
/// would panic.
pub open spec fn sharpe_spec(vals: Seq<DecView>, risk_free_rate: DecView) -> Option<
    Result<DecView, KpiFailure>,
> {
    if vals.len() < 2 {
        Some(Ok(zero_view()))
    } else if vals[0].0 < 0 {
        Some(Err(KpiFailure::NegativeValue))
    } else {
        match sharpe_walk(vals.drop_first(), (vals[0], zero_view(), zero_view(), 0)) {
            None => None,
            Some(Err(f)) => Some(Err(f)),
            Some(Ok(acc)) => sharpe_finish(acc, risk_free_rate),
        }
    }
}

/// The sum of the daily returns between consecutive values of
/// `vals[0..=n]`, each return being `(vals[i] - vals[i - 1]) / vals[i - 1]`,
/// and the sum of their squares, both added in order; `None` where one of
/// these operations overflows.
pub open spec fn consecutive_return_sums(vals: Seq<DecView>, n: nat) -> Option<(DecView, DecView)>
    decreases n,
{
    if n == 0 {
        Some((zero_view(), zero_view()))
    } else {
        match consecutive_return_sums(vals, (n - 1) as nat) {
            None => None,
            Some((s, q)) => match decimal_checked_sub(vals[n as int], vals[n - 1]) {
                None => None,
                Some(diff) => match decimal_checked_div(diff, vals[n - 1]) {
                    None => None,
                    Some(r) => match decimal_checked_add(s, r) {
                        None => None,
                        Some(s2) => match decimal_checked_mul(r, r) {
                            None => None,
                            Some(sq) => match decimal_checked_add(q, sq) {
                                None => None,
                                Some(q2) => Some((s2, q2)),
                            },
                        },
                    },
                },
            },
        }
    }
}

proof fn lemma_sharpe_walk_push(xs: Seq<DecView>, acc: SharpeAcc, v: DecView)
    ensures
        sharpe_walk(xs.push(v), acc) == (match sharpe_walk(xs, acc) {
            None => None,
            Some(Err(f)) => Some(Err(f)),
            Some(Ok(a)) => sharpe_step(a, v),
        }),
    decreases xs.len(),
{
    if xs.len() == 0 {
        assert(xs.push(v).drop_first() =~= Seq::<DecView>::empty());
        assert(xs.push(v)[0] == v);
        match sharpe_step(acc, v) {
            None => {},
            Some(Err(_)) => {},
            Some(Ok(a2)) => {
                assert(sharpe_walk(Seq::<DecView>::empty(), a2) == Some(
                    Ok::<SharpeAcc, KpiFailure>(a2),
                ));
            },
        }
    } else {
        assert(xs.push(v).drop_first() =~= xs.drop_first().push(v));
        assert(xs.push(v)[0] == xs[0]);
        match sharpe_step(acc, xs[0]) {
            None => {},
            Some(Err(_)) => {},
            Some(Ok(a2)) => {
                lemma_sharpe_walk_push(xs.drop_first(), a2, v);
            },
        }
    }
}

proof fn lemma_sharpe_walk_prefix(vals: Seq<DecView>, n: nat)
    requires
        n < vals.len(),
        forall|i: int| 0 <= i < vals.len() ==> (#[trigger] vals[i]).0 > 0,
    ensures
        sharpe_walk(vals.drop_first().take(n as int), (vals[0], zero_view(), zero_view(), 0))
            == (match consecutive_return_sums(vals, n) {
            None => None,
            Some((s, q)) => Some(Ok::<SharpeAcc, KpiFailure>((vals[n as int], s, q, n as int))),
        }),
    decreases n,
{
    let init = (vals[0], zero_view(), zero_view(), 0int);
    if n == 0 {
        assert(vals.drop_first().take(0) =~= Seq::<DecView>::empty());
    } else {
        let m = (n - 1) as nat;
        lemma_sharpe_walk_prefix(vals, m);
        assert(vals.drop_first().take(n as int) =~= vals.drop_first().take(m as int).push(
            vals[n as int],
        ));
        lemma_sharpe_walk_push(vals.drop_first().take(m as int), init, vals[n as int]);
        assert(vals[n as int].0 > 0);
        assert(vals[m as int].0 > 0);
    }
}

/// The Sharpe ratio of a history of positive values is computed from the
/// returns between consecutive values, `(v[i] - v[i - 1]) / v[i - 1]` for
/// each `i` from 1 (the previous value is always the one just before): the
/// ratio is the one `sharpe_finish` gives for their sum, the sum of their
/// squares and their number.
pub proof fn lemma_sharpe_uses_consecutive_returns(vals: Seq<DecView>, risk_free_rate: DecView)
    requires
        vals.len() >= 2,
        forall|i: int| 0 <= i < vals.len() ==> (#[trigger] vals[i]).0 > 0,
    ensures
        sharpe_spec(vals, risk_free_rate) == (match consecutive_return_sums(
            vals,
            (vals.len() - 1) as nat,
        ) {
            None => None,
            Some((s, q)) => sharpe_finish((vals.last(), s, q, vals.len() - 1), risk_free_rate),
        }),
{
    let n = (vals.len() - 1) as nat;
    lemma_sharpe_walk_prefix(vals, n);
    assert(vals.drop_first().take(n as int) =~= vals.drop_first());
    assert(vals[0].0 > 0);
}

/// The Sharpe ratio of `count > 0` returns with mean `sum / count` and
/// variance `sum_sq / count - mean * mean`: zero when the variance is not
/// positive; otherwise an error where its square root cannot be taken, and
/// else `(365 * mean - risk_free_rate) / (sqrt(variance) * sqrt(365))`.
pub proof fn lemma_sharpe_ratio_is_annualized_excess_over_deviation(
    acc: SharpeAcc,
    risk_free_rate: DecView,
    mean: DecView,
    variance: DecView,
    ratio: DecView,
)
    requires
        acc.3 > 0,
        decimal_checked_div(acc.1, int_view(acc.3)) == Some(mean),
        decimal_checked_div(acc.2, int_view(acc.3)) matches Some(mean_sq) && decimal_checked_mul(
            mean,
            mean,
        ) matches Some(mean2) && decimal_checked_sub(mean_sq, mean2) == Some(variance),
    ensures
        !value_lt(zero_view(), variance) ==> sharpe_finish(acc, risk_free_rate) == Some(
            Ok::<DecView, KpiFailure>(zero_view()),
        ),
        value_lt(zero_view(), variance) && sqrt_spec(variance) == Some(None::<DecView>)
            ==> sharpe_finish(acc, risk_free_rate) == Some(
            Err::<DecView, KpiFailure>(KpiFailure::StdDevFailed),
        ),
        value_lt(zero_view(), variance) && sharpe_finish(acc, risk_free_rate) == Some(
            Ok::<DecView, KpiFailure>(ratio),
        ) ==> (sqrt_spec(variance) matches Some(Some(std_dev)) && decimal_checked_mul(
            mean,
            days_per_year(),
        ) matches Some(ann_ret) && decimal_checked_mul(
            std_dev,
            sqrt_days_per_year(),
        ) matches Some(ann_std) && decimal_checked_sub(ann_ret, risk_free_rate) matches Some(
            excess,
        ) && decimal_checked_div(excess, ann_std) == Some(ratio)),
{
}

proof fn lemma_sharpe_walk_checks(xs: Seq<DecView>, acc: SharpeAcc)
    ensures
        sharpe_walk(xs, acc) matches Some(Ok(_)) ==> {
            &&& forall|i: int| 0 <= i < xs.len() ==> (#[trigger] xs[i]).0 >= 0
            &&& xs.len() > 0 ==> acc.0.0 != 0
            &&& forall|i: int| 0 <= i < xs.len() - 1 ==> (#[trigger] xs[i]).0 != 0
        },
        sharpe_walk(xs, acc) matches Some(Err(f)) ==> {
            ||| f == KpiFailure::NegativeValue && exists|i: int|
                0 <= i < xs.len() && (#[trigger] xs[i]).0 < 0
            ||| f == KpiFailure::ZeroPreviousValue && (acc.0.0 == 0 || exists|i: int|
                0 <= i < xs.len() - 1 && (#[trigger] xs[i]).0 == 0)
        },
    decreases xs.len(),
{
    if xs.len() > 0 {
        let rest = xs.drop_first();
        match sharpe_step(acc, xs[0]) {
            Some(Ok(acc2)) => {
                lemma_sharpe_walk_checks(rest, acc2);
                assert(acc2.0 == xs[0]);
                assert forall|i: int| 0 < i < xs.len() implies xs[i] == #[trigger] rest[i - 1] by {}
                if sharpe_walk(xs, acc) matches Some(Ok(_)) {
                    assert forall|i: int| 0 <= i < xs.len() implies (#[trigger] xs[i]).0 >= 0 by {
                        if i > 0 {
                            assert(xs[i] == rest[i - 1]);
                        }
                    }
                    assert forall|i: int| 0 <= i < xs.len() - 1 implies (#[trigger] xs[i]).0
                        != 0 by {
                        if i > 0 {
                            assert(xs[i] == rest[i - 1]);
                        }
                    }
                }
                if let Some(Err(f)) = sharpe_walk(xs, acc) {
                    if f == KpiFailure::NegativeValue {
                        let j = choose|j: int| 0 <= j < rest.len() && (#[trigger] rest[j]).0 < 0;
                        assert(xs[j + 1] == rest[j]);
                    } else if acc2.0.0 != 0 {
                        let j = choose|j: int|
                            0 <= j < rest.len() - 1 && (#[trigger] rest[j]).0 == 0;
                        assert(xs[j + 1] == rest[j]);
                    }
                }
            },
            _ => {},
        }
    }
}

/// A Sharpe ratio that comes out means no value was negative and none but
/// the last was zero; the error is `NegativeValue` only where some value is
/// negative, and `ZeroPreviousValue` only where a value before the last is
/// zero.
pub proof fn lemma_sharpe_checks_values(vals: Seq<DecView>, risk_free_rate: DecView)
    requires
        vals.len() >= 2,
    ensures
        sharpe_spec(vals, risk_free_rate) matches Some(Ok(_)) ==> {
            &&& forall|i: int| 0 <= i < vals.len() ==> (#[trigger] vals[i]).0 >= 0
            &&& forall|i: int| 0 <= i < vals.len() - 1 ==> (#[trigger] vals[i]).0 > 0
        },
        sharpe_spec(vals, risk_free_rate) matches Some(Err(f)) ==> {
            ||| f == KpiFailure::NegativeValue && exists|i: int|
                0 <= i < vals.len() && (#[trigger] vals[i]).0 < 0
            ||| f == KpiFailure::ZeroPreviousValue && exists|i: int|
                0 <= i < vals.len() - 1 && (#[trigger] vals[i]).0 == 0
            ||| f == KpiFailure::StdDevFailed
        },
{
    let rest = vals.drop_first();
    let init = (vals[0], zero_view(), zero_view(), 0int);
    lemma_sharpe_walk_checks(rest, init);
    assert forall|i: int| 0 < i < vals.len() implies vals[i] == #[trigger] rest[i - 1] by {}
    if vals[0].0 >= 0 {
        if sharpe_spec(vals, risk_free_rate) matches Some(Ok(_)) {
            assert(sharpe_walk(rest, init) matches Some(Ok(_)));
            assert forall|i: int| 0 <= i < vals.len() implies (#[trigger] vals[i]).0 >= 0 by {
                if i > 0 {
                    assert(vals[i] == rest[i - 1]);
                }
            }
            assert forall|i: int| 0 <= i < vals.len() - 1 implies (#[trigger] vals[i]).0 > 0 by {
                if i > 0 {
                    assert(vals[i] == rest[i - 1]);
                }
            }
        }
        if let Some(Err(f)) = sharpe_walk(rest, init) {
            if f == KpiFailure::NegativeValue {
                let j = choose|j: int| 0 <= j < rest.len() && (#[trigger] rest[j]).0 < 0;
                assert(vals[j + 1] == rest[j]);
            } else if vals[0].0 != 0 {
                let j = choose|j: int| 0 <= j < rest.len() - 1 && (#[trigger] rest[j]).0 == 0;
                assert(vals[j + 1] == rest[j]);
            }
        }
    }
}

fn sharpe_finish_exec(
    sum: Dec,
    sum_sq: Dec,
    count: i32,
    risk_free_rate: Dec,
    Ghost(prev): Ghost<DecView>,
) -> (r: Option<Result<Dec, KpiError>>)
    requires
        count >= 0,
    ensures
        r is Some <==> sharpe_finish((prev, sum@, sum_sq@, count as int), risk_free_rate@) is Some,
        r matches Some(res) ==> result_is(
            res,
            sharpe_finish((prev, sum@, sum_sq@, count as int), risk_free_rate@)->0,
        ),
{
    if count == 0 {
        return Some(Ok(Dec::zero()));
    }
    let n = Dec::from_i64(count as i64);
    let mean = match sum.checked_div(&n) {
        Some(d) => d,
        None => return None,
    };
    let mean_sq = match sum_sq.checked_div(&n) {
        Some(d) => d,
        None => return None,
    };
    let mean2 = match mean.checked_mul(&mean) {
        Some(d) => d,
        None => return None,
    };
    let variance = match mean_sq.checked_sub(&mean2) {
        Some(d) => d,
        None => return None,
    };
    if !variance.is_positive() {
        return Some(Ok(Dec::zero()));
    }
    let std_dev = match variance.try_sqrt() {
        None => return None,
        Some(Some(d)) => d,
        Some(None) => return Some(Err(KpiError::from_failure(KpiFailure::StdDevFailed))),
    };
    let ann_ret = match mean.checked_mul(&Dec::from_i64(365)) {
        Some(d) => d,
        None => return None,
    };
    let ann_std = match std_dev.checked_mul(&sqrt_days_per_year_dec()) {
        Some(d) => d,
        None => return None,
    };
    let excess = match ann_ret.checked_sub(&risk_free_rate) {
        Some(d) => d,
        None => return None,
    };
    match excess.checked_div(&ann_std) {
        Some(d) => Some(Ok(d)),
        None => None,
    }
}

fn sharpe_checked(history: &[(Timestamp, Dec)], risk_free_rate: Dec) -> (r: Option<
    Result<Dec, KpiError>,
>)
    requires
        history.len() <= i32::MAX,
    ensures
        r is Some <==> sharpe_spec(values_of(history@), risk_free_rate@) is Some,
        r matches Some(res) ==> result_is(
            res,
            sharpe_spec(values_of(history@), risk_free_rate@)->0,
        ),
{
    let ghost vals = values_of(history@);
    if history.len() < 2 {
        return Some(Ok(Dec::zero()));
    }
    let mut prev = history[0].1;
    if prev.is_negative() {
        return Some(Err(KpiError::from_failure(KpiFailure::NegativeValue)));
    }
    let mut sum = Dec::zero();
    let mut sum_sq = Dec::zero();
    let mut count: i32 = 0;
    let ghost rest = vals.drop_first();
    let mut i: usize = 1;
    proof {
        assert(rest.skip(0) =~= rest);
    }
    while i < history.len()
        invariant
            1 <= i <= history.len(),
            history.len() <= i32::MAX,
            vals == values_of(history@),
            rest == vals.drop_first(),
            vals.len() >= 2,
            vals[0].0 >= 0,
            count == i - 1,
            sharpe_walk(rest.skip(i - 1), (prev@, sum@, sum_sq@, count as int)) == sharpe_walk(
                rest,
                (vals[0], zero_view(), zero_view(), 0),
            ),
        decreases history.len() - i,
    {
        let v = history[i].1;
        proof {
            assert(rest.skip(i - 1).drop_first() =~= rest.skip(i as int));
            assert(rest.skip(i - 1)[0] == v@);
        }
        if v.is_negative() {
            return Some(Err(KpiError::from_failure(KpiFailure::NegativeValue)));
        }
        if prev.is_zero() {
            return Some(Err(KpiError::from_failure(KpiFailure::ZeroPreviousValue)));
        }
        let r = match return_rate_exec(&prev, &v) {
            Some(d) => d,
            None => return None,
        };
        sum = match sum.checked_add(&r) {
            Some(d) => d,
            None => return None,
        };
        sum_sq = match add_square_exec(&sum_sq, &r) {
            Some(d) => d,
            None => return None,
        };
        count = count + 1;
        prev = v;
        i = i + 1;
    }
    proof {
        assert(rest.skip(i - 1).len() == 0);
    }
    sharpe_finish_exec(sum, sum_sq, count, risk_free_rate, Ghost(prev@))
}

/// The annualized Sharpe ratio of `portfolio_history` (chronological, oldest
/// first), with daily returns and the yearly `risk_free_rate`.
pub fn calculate_sharpe_ratio(portfolio_history: &[(Timestamp, Dec)], risk_free_rate: Dec) -> (r: Result<
    Dec,
    KpiError,
>)
    requires
        portfolio_history.len() <= i32::MAX,
        sharpe_spec(values_of(portfolio_history@), risk_free_rate@) is Some,
    ensures
        result_is(r, sharpe_spec(values_of(portfolio_history@), risk_free_rate@)->0),
{
    match sharpe_checked(portfolio_history, risk_free_rate) {
        Some(r) => r,
        None => {
            proof {
                assert(false);
            }
            Ok(Dec::zero())
        },
    }
}

/// `calculate_sharpe_ratio` where `Decimal` arithmetic does not panic, and
/// `None` where it would.
pub fn try_calculate_sharpe_ratio(portfolio_history: &[(Timestamp, Dec)], risk_free_rate: Dec) -> (r:
    Option<Result<Dec, KpiError>>)
    requires
        portfolio_history.len() <= i32::MAX,
    ensures
        r is Some <==> sharpe_spec(values_of(portfolio_history@), risk_free_rate@) is Some,
        r matches Some(res) ==> result_is(
            res,
            sharpe_spec(values_of(portfolio_history@), risk_free_rate@)->0,
        ),
{
    sharpe_checked(portfolio_history, risk_free_rate)
}

// ---------------------------------------------------------------------------
// Sortino ratio

/// Running state of the Sortino walk: previous value, sum of returns, sum of
/// squared shortfalls below the target, number of shortfalls, number of returns.
pub type SortinoAcc = (DecView, DecView, DecView, int, int);

/// One step of the Sortino walk against the daily `target`.
pub open spec fn sortino_step(acc: SortinoAcc, v: DecView, target: DecView) -> Option<
    Result<SortinoAcc, KpiFailure>,
> {
    let (prev, sum, down_sq, down_count, count) = acc;
    if v.0 < 0 {
        Some(Err(KpiFailure::NegativeValue))
    } else if prev.0 == 0 {
        Some(Err(KpiFailure::ZeroPreviousValue))
    } else {
        match return_rate(prev, v) {
            None => None,
            Some(r) => match decimal_checked_add(sum, r) {
                None => None,
                Some(sum2) => if value_lt(r, target) {
                    match decimal_checked_sub(r, target) {
                        None => None,
                        Some(shortfall) => match add_square(down_sq, shortfall) {
                            None => None,
                            Some(sq2) => Some(Ok((v, sum2, sq2, down_count + 1, count + 1))),
                        },
                    }
                } else {
                    Some(Ok((v, sum2, down_sq, down_count, count + 1)))
                },
            },
        }
    }
}

/// The Sortino walk over `vals` from `acc`.
pub open spec fn sortino_walk(vals: Seq<DecView>, acc: SortinoAcc, target: DecView) -> Option<
    Result<SortinoAcc, KpiFailure>,
>
    decreases vals.len(),
{
    if vals.len() == 0 {
        Some(Ok(acc))
    } else {
        match sortino_step(acc, vals[0], target) {
            None => None,
            Some(Err(f)) => Some(Err(f)),
            Some(Ok(acc2)) => sortino_walk(vals.drop_first(), acc2, target),
        }
    }
}

/// The Sortino ratio once the returns are summed: with mean `m = sum / n`,
/// `Decimal::MAX` when no return fell short and `m > target`, zero when none
/// fell short otherwise; else, with the downside variance
/// `down_sq / down_count`, zero unless it is positive, and
/// `(365 m - 365 target) / (sqrt(downside variance) * sqrt(365))` when it is.
pub open spec fn sortino_finish(acc: SortinoAcc, target: DecView) -> Option<
    Result<DecView, KpiFailure>,
> {
    let (prev, sum, down_sq, down_count, count) = acc;
    if count == 0 {
        Some(Ok(zero_view()))
    } else {
        match decimal_checked_div(sum, int_view(count)) {
            None => None,
            Some(mean) => if down_count == 0 {
                if value_lt(target, mean) {
                    Some(Ok(max_value_view()))
                } else {
                    Some(Ok(zero_view()))
                }
            } else {
                match decimal_checked_div(down_sq, int_view(down_count)) {
                    None => None,
                    Some(down_var) => if !value_lt(zero_view(), down_var) {
                        Some(Ok(zero_view()))
                    } else {
                        match sqrt_spec(down_var) {
                            None => None,
                            Some(None) => Some(Err(KpiFailure::DownsideDevFailed)),
                            Some(Some(down_dev)) => match decimal_checked_mul(mean, days_per_year()) {
                                None => None,
                                Some(ann_ret) => match decimal_checked_mul(
                                    target,
                                    days_per_year(),
                                ) {
                                    None => None,
                                    Some(ann_target) => match decimal_checked_mul(
                                        down_dev,
                                        sqrt_days_per_year(),
                                    ) {
                                        None => None,
                                        Some(ann_dev) => match decimal_checked_sub(
                                            ann_ret,
                                            ann_target,
                                        ) {
                                            None => None,
                                            Some(excess) => match decimal_checked_div(
                                                excess,
                                                ann_dev,
                                            ) {
                                                None => None,
                                                Some(ratio) => Some(Ok(ratio)),
                                            },
                                        },
                                    },
                                },
                            },
                        }
                    },
                }
            },
        }
    }
}

/// The annualized Sortino ratio of a chronological value history against the
/// daily `target` return: zero for fewer than two values; an error at the
/// first negative value or at a zero value that a return would divide by;
/// `None` where `Decimal` arithmetic would panic.
pub open spec fn sortino_spec(vals: Seq<DecView>, target: DecView) -> Option<
    Result<DecView, KpiFailure>,
> {
    if vals.len() < 2 {
        Some(Ok(zero_view()))
    } else if vals[0].0 < 0 {
        Some(Err(KpiFailure::NegativeValue))
    } else {
        match sortino_walk(vals.drop_first(), (vals[0], zero_view(), zero_view(), 0, 0), target) {
            None => None,
            Some(Err(f)) => Some(Err(f)),
            Some(Ok(acc)) => sortino_finish(acc, target),
        }
    }
}

/// Over the returns between consecutive values of `vals[0..=n]`, each
/// `(vals[i] - vals[i - 1]) / vals[i - 1]`: their sum; the sum of the
/// squares of the shortfalls `r - target` of the returns `r` below `target`
/// (and of those alone); and the number of such returns. `None` where one of
/// these operations overflows.
pub open spec fn consecutive_downside_sums(vals: Seq<DecView>, target: DecView, n: nat) -> Option<
    (DecView, DecView, int),
>
    decreases n,
{
    if n == 0 {
        Some((zero_view(), zero_view(), 0))
    } else {
        match consecutive_downside_sums(vals, target, (n - 1) as nat) {
            None => None,
            Some((s, q, k)) => match decimal_checked_sub(vals[n as int], vals[n - 1]) {
                None => None,
                Some(diff) => match decimal_checked_div(diff, vals[n - 1]) {
                    None => None,
                    Some(r) => match decimal_checked_add(s, r) {
                        None => None,
                        Some(s2) => if value_lt(r, target) {
                            match decimal_checked_sub(r, target) {
                                None => None,
                                Some(short) => match decimal_checked_mul(short, short) {
                                    None => None,
                                    Some(sq) => match decimal_checked_add(q, sq) {
                                        None => None,
                                        Some(q2) => Some((s2, q2, k + 1)),
                                    },
                                },
                            }
                        } else {
                            Some((s2, q, k))
                        },
                    },
                },
            },
        }
    }
}

proof fn lemma_sortino_walk_push(xs: Seq<DecView>, acc: SortinoAcc, v: DecView, target: DecView)
    ensures
        sortino_walk(xs.push(v), acc, target) == (match sortino_walk(xs, acc, target) {
            None => None,
            Some(Err(f)) => Some(Err(f)),
            Some(Ok(a)) => sortino_step(a, v, target),
        }),
    decreases xs.len(),
{
    if xs.len() == 0 {
        assert(xs.push(v).drop_first() =~= Seq::<DecView>::empty());
        assert(xs.push(v)[0] == v);
        match sortino_step(acc, v, target) {
            None => {},
            Some(Err(_)) => {},
            Some(Ok(a2)) => {
                assert(sortino_walk(Seq::<DecView>::empty(), a2, target) == Some(
                    Ok::<SortinoAcc, KpiFailure>(a2),
                ));
            },
        }
    } else {
        assert(xs.push(v).drop_first() =~= xs.drop_first().push(v));
        assert(xs.push(v)[0] == xs[0]);
        match sortino_step(acc, xs[0], target) {
            None => {},
            Some(Err(_)) => {},
            Some(Ok(a2)) => {
                lemma_sortino_walk_push(xs.drop_first(), a2, v, target);
            },
        }
    }
}

proof fn lemma_sortino_walk_prefix(vals: Seq<DecView>, target: DecView, n: nat)
    requires
        n < vals.len(),
        forall|i: int| 0 <= i < vals.len() ==> (#[trigger] vals[i]).0 > 0,
    ensures
        sortino_walk(
            vals.drop_first().take(n as int),
            (vals[0], zero_view(), zero_view(), 0, 0),
            target,
        ) == (match consecutive_downside_sums(vals, target, n) {
            None => None,
            Some((s, q, k)) => Some(Ok::<SortinoAcc, KpiFailure>((vals[n as int], s, q, k, n as int))),
        }),
    decreases n,
{
    let init = (vals[0], zero_view(), zero_view(), 0int, 0int);
    if n == 0 {
        assert(vals.drop_first().take(0) =~= Seq::<DecView>::empty());
    } else {
        let m = (n - 1) as nat;
        lemma_sortino_walk_prefix(vals, target, m);
        assert(vals.drop_first().take(n as int) =~= vals.drop_first().take(m as int).push(
            vals[n as int],
        ));
        lemma_sortino_walk_push(vals.drop_first().take(m as int), init, vals[n as int], target);
        assert(vals[n as int].0 > 0);
        assert(vals[m as int].0 > 0);
    }
}

/// The Sortino ratio of a history of positive values is computed from the
/// returns between consecutive values, `(v[i] - v[i - 1]) / v[i - 1]`: a
/// return counts as downside, adding the square of its shortfall
/// `r - target` and one to the downside count, exactly when it is below the
/// target; the ratio is the one `sortino_finish` gives for the sum of the
/// returns, the sum of those squares, the downside count and the number of
/// returns.
pub proof fn lemma_sortino_counts_returns_below_target(vals: Seq<DecView>, target: DecView)
    requires
        vals.len() >= 2,
        forall|i: int| 0 <= i < vals.len() ==> (#[trigger] vals[i]).0 > 0,
    ensures
        sortino_spec(vals, target) == (match consecutive_downside_sums(
            vals,
            target,
            (vals.len() - 1) as nat,
        ) {
            None => None,
            Some((s, q, k)) => sortino_finish((vals.last(), s, q, k, vals.len() - 1), target),
        }),
{
    let n = (vals.len() - 1) as nat;
    lemma_sortino_walk_prefix(vals, target, n);
    assert(vals.drop_first().take(n as int) =~= vals.drop_first());
    assert(vals[0].0 > 0);
}

/// The Sortino ratio of `count > 0` returns with mean `sum / count`: when no
/// return fell short of the target, `Decimal::MAX` if the mean beats the
/// target and zero if not; otherwise, with the downside variance
/// `down_sq / down_count` (over the shortfalls only), zero when it is not
/// positive, an error where its square root cannot be taken, and else
/// `(365 * mean - 365 * target) / (sqrt(downside variance) * sqrt(365))`.
pub proof fn lemma_sortino_ratio_is_annualized_excess_over_downside(
    acc: SortinoAcc,
    target: DecView,
    mean: DecView,
    down_var: DecView,
    ratio: DecView,
)
    requires
        acc.4 > 0,
        decimal_checked_div(acc.1, int_view(acc.4)) == Some(mean),
    ensures
        acc.3 == 0 ==> sortino_finish(acc, target) == Some(
            Ok::<DecView, KpiFailure>(
                if value_lt(target, mean) {
                    max_value_view()
                } else {
                    zero_view()
                },
            ),
        ),
        acc.3 > 0 && decimal_checked_div(acc.2, int_view(acc.3)) == Some(down_var) && !value_lt(
            zero_view(),
            down_var,
        ) ==> sortino_finish(acc, target) == Some(Ok::<DecView, KpiFailure>(zero_view())),
        acc.3 > 0 && decimal_checked_div(acc.2, int_view(acc.3)) == Some(down_var) && value_lt(
            zero_view(),
            down_var,
        ) && sqrt_spec(down_var) == Some(None::<DecView>) ==> sortino_finish(acc, target) == Some(
            Err::<DecView, KpiFailure>(KpiFailure::DownsideDevFailed),
        ),
        acc.3 > 0 && decimal_checked_div(acc.2, int_view(acc.3)) == Some(down_var) && value_lt(
            zero_view(),
            down_var,
        ) && sortino_finish(acc, target) == Some(Ok::<DecView, KpiFailure>(ratio)) ==> (sqrt_spec(
            down_var,
        ) matches Some(Some(down_dev)) && decimal_checked_mul(
            mean,
            days_per_year(),
        ) matches Some(ann_ret) && decimal_checked_mul(
            target,
            days_per_year(),
        ) matches Some(ann_target) && decimal_checked_mul(
            down_dev,
            sqrt_days_per_year(),
        ) matches Some(ann_dev) && decimal_checked_sub(ann_ret, ann_target) matches Some(excess)
            && decimal_checked_div(excess, ann_dev) == Some(ratio)),
{
}

/// A history with fewer than two values has no returns: its Sharpe and
/// Sortino ratios are zero; and a history of at most one value, none of them
/// negative, has no drawdown.
pub proof fn lemma_short_history_has_zero_figures(
    vals: Seq<DecView>,
    risk_free_rate: DecView,
    target: DecView,
)
    requires
        vals.len() < 2,
    ensures
        sharpe_spec(vals, risk_free_rate) == Some(Ok::<DecView, KpiFailure>(zero_view())),
        sortino_spec(vals, target) == Some(Ok::<DecView, KpiFailure>(zero_view())),
        vals.len() == 0 || vals[0].0 >= 0 ==> max_drawdown_spec(vals) == Some(
            Ok::<DecView, KpiFailure>(zero_view()),
        ),
{
    if vals.len() == 1 && vals[0].0 >= 0 {
        lemma_rising_history_has_no_drawdown(vals);
    }
}

proof fn lemma_sortino_walk_checks(xs: Seq<DecView>, acc: SortinoAcc, target: DecView)
    ensures
        sortino_walk(xs, acc, target) matches Some(Ok(_)) ==> {
            &&& forall|i: int| 0 <= i < xs.len() ==> (#[trigger] xs[i]).0 >= 0
            &&& xs.len() > 0 ==> acc.0.0 != 0
            &&& forall|i: int| 0 <= i < xs.len() - 1 ==> (#[trigger] xs[i]).0 != 0
        },
        sortino_walk(xs, acc, target) matches Some(Err(f)) ==> {
            ||| f == KpiFailure::NegativeValue && exists|i: int|
                0 <= i < xs.len() && (#[trigger] xs[i]).0 < 0
            ||| f == KpiFailure::ZeroPreviousValue && (acc.0.0 == 0 || exists|i: int|
                0 <= i < xs.len() - 1 && (#[trigger] xs[i]).0 == 0)
        },
    decreases xs.len(),
{
    if xs.len() > 0 {
        let rest = xs.drop_first();
        match sortino_step(acc, xs[0], target) {
            Some(Ok(acc2)) => {
                lemma_sortino_walk_checks(rest, acc2, target);
                assert(acc2.0 == xs[0]);
                assert forall|i: int| 0 < i < xs.len() implies xs[i] == #[trigger] rest[i - 1] by {}
                if sortino_walk(xs, acc, target) matches Some(Ok(_)) {
                    assert forall|i: int| 0 <= i < xs.len() implies (#[trigger] xs[i]).0 >= 0 by {
                        if i > 0 {
                            assert(xs[i] == rest[i - 1]);
                        }
                    }
                    assert forall|i: int| 0 <= i < xs.len() - 1 implies (#[trigger] xs[i]).0
                        != 0 by {
                        if i > 0 {
                            assert(xs[i] == rest[i - 1]);
                        }
                    }
                }
                if let Some(Err(f)) = sortino_walk(xs, acc, target) {
                    if f == KpiFailure::NegativeValue {
                        let j = choose|j: int| 0 <= j < rest.len() && (#[trigger] rest[j]).0 < 0;
                        assert(xs[j + 1] == rest[j]);
                    } else if acc2.0.0 != 0 {
                        let j = choose|j: int|
                            0 <= j < rest.len() - 1 && (#[trigger] rest[j]).0 == 0;
                        assert(xs[j + 1] == rest[j]);
                    }
                }
            },
            _ => {},
        }
    }
}

/// A Sortino ratio that comes out means no value was negative and none but
/// the last was zero; the error is `NegativeValue` only where some value is
/// negative, and `ZeroPreviousValue` only where a value before the last is
/// zero.
pub proof fn lemma_sortino_checks_values(vals: Seq<DecView>, target: DecView)
    requires
        vals.len() >= 2,
    ensures
        sortino_spec(vals, target) matches Some(Ok(_)) ==> {
            &&& forall|i: int| 0 <= i < vals.len() ==> (#[trigger] vals[i]).0 >= 0
            &&& forall|i: int| 0 <= i < vals.len() - 1 ==> (#[trigger] vals[i]).0 > 0
        },
        sortino_spec(vals, target) matches Some(Err(f)) ==> {
            ||| f == KpiFailure::NegativeValue && exists|i: int|
                0 <= i < vals.len() && (#[trigger] vals[i]).0 < 0
            ||| f == KpiFailure::ZeroPreviousValue && exists|i: int|
                0 <= i < vals.len() - 1 && (#[trigger] vals[i]).0 == 0
            ||| f == KpiFailure::DownsideDevFailed
        },
{
    let rest = vals.drop_first();
    let init = (vals[0], zero_view(), zero_view(), 0int, 0int);
    lemma_sortino_walk_checks(rest, init, target);
    assert forall|i: int| 0 < i < vals.len() implies vals[i] == #[trigger] rest[i - 1] by {}
    if vals[0].0 >= 0 {
        if sortino_spec(vals, target) matches Some(Ok(_)) {
            assert(sortino_walk(rest, init, target) matches Some(Ok(_)));
            assert forall|i: int| 0 <= i < vals.len() implies (#[trigger] vals[i]).0 >= 0 by {
                if i > 0 {
                    assert(vals[i] == rest[i - 1]);
                }
            }
            assert forall|i: int| 0 <= i < vals.len() - 1 implies (#[trigger] vals[i]).0 > 0 by {
                if i > 0 {
                    assert(vals[i] == rest[i - 1]);
                }
            }
        }
        if let Some(Err(f)) = sortino_walk(rest, init, target) {
            if f == KpiFailure::NegativeValue {
                let j = choose|j: int| 0 <= j < rest.len() && (#[trigger] rest[j]).0 < 0;
                assert(vals[j + 1] == rest[j]);
            } else if vals[0].0 != 0 {
                let j = choose|j: int| 0 <= j < rest.len() - 1 && (#[trigger] rest[j]).0 == 0;
                assert(vals[j + 1] == rest[j]);
            }
        }
    }
}

fn sortino_finish_exec(
    sum: Dec,
    down_sq: Dec,
    down_count: i32,
    count: i32,
    target: Dec,
    Ghost(prev): Ghost<DecView>,
) -> (r: Option<Result<Dec, KpiError>>)
    requires
        count >= 0,
        down_count >= 0,
    ensures
        r is Some <==> sortino_finish(
            (prev, sum@, down_sq@, down_count as int, count as int),
            target@,
        ) is Some,
        r matches Some(res) ==> result_is(
            res,
            sortino_finish((prev, sum@, down_sq@, down_count as int, count as int), target@)->0,
        ),
{
    if count == 0 {
        return Some(Ok(Dec::zero()));
    }
    let mean = match sum.checked_div(&Dec::from_i64(count as i64)) {
        Some(d) => d,
        None => return None,
    };
    if down_count == 0 {
        if target.lt(&mean) {
            return Some(Ok(Dec::max_value()));
        } else {
            return Some(Ok(Dec::zero()));
        }
    }
    let down_var = match down_sq.checked_div(&Dec::from_i64(down_count as i64)) {
        Some(d) => d,
        None => return None,
    };
    if !down_var.is_positive() {
        return Some(Ok(Dec::zero()));
    }
    let down_dev = match down_var.try_sqrt() {
        None => return None,
        Some(Some(d)) => d,
        Some(None) => return Some(Err(KpiError::from_failure(KpiFailure::DownsideDevFailed))),
    };
    let days = Dec::from_i64(365);
    let ann_ret = match mean.checked_mul(&days) {
        Some(d) => d,
        None => return None,
    };
    let ann_target = match target.checked_mul(&days) {
        Some(d) => d,
        None => return None,
    };
    let ann_dev = match down_dev.checked_mul(&sqrt_days_per_year_dec()) {
        Some(d) => d,
        None => return None,
    };
    let excess = match ann_ret.checked_sub(&ann_target) {
        Some(d) => d,
        None => return None,
    };
    match excess.checked_div(&ann_dev) {
        Some(d) => Some(Ok(d)),
        None => None,
    }
}

fn sortino_checked(history: &[(Timestamp, Dec)], target: Dec) -> (r: Option<Result<Dec, KpiError>>)
    requires
        history.len() <= i32::MAX,
    ensures
        r is Some <==> sortino_spec(values_of(history@), target@) is Some,
        r matches Some(res) ==> result_is(res, sortino_spec(values_of(history@), target@)->0),
{
    let ghost vals = values_of(history@);
    if history.len() < 2 {
        return Some(Ok(Dec::zero()));
    }
    let mut prev = history[0].1;
    if prev.is_negative() {
        return Some(Err(KpiError::from_failure(KpiFailure::NegativeValue)));
    }
    let mut sum = Dec::zero();
    let mut down_sq = Dec::zero();
    let mut down_count: i32 = 0;
    let mut count: i32 = 0;
    let ghost rest = vals.drop_first();
    let mut i: usize = 1;
    proof {
        assert(rest.skip(0) =~= rest);
    }
    while i < history.len()
        invariant
            1 <= i <= history.len(),
            history.len() <= i32::MAX,
            vals == values_of(history@),
            rest == vals.drop_first(),
            vals.len() >= 2,
            vals[0].0 >= 0,
            count == i - 1,
            0 <= down_count <= count,
            sortino_walk(
                rest.skip(i - 1),
                (prev@, sum@, down_sq@, down_count as int, count as int),
                target@,
            ) == sortino_walk(rest, (vals[0], zero_view(), zero_view(), 0, 0), target@),
        decreases history.len() - i,
    {
        let v = history[i].1;
        proof {
            assert(rest.skip(i - 1).drop_first() =~= rest.skip(i as int));
            assert(rest.skip(i - 1)[0] == v@);
        }
        if v.is_negative() {
            return Some(Err(KpiError::from_failure(KpiFailure::NegativeValue)));
        }
        if prev.is_zero() {
            return Some(Err(KpiError::from_failure(KpiFailure::ZeroPreviousValue)));
        }
        let r = match return_rate_exec(&prev, &v) {
            Some(d) => d,
            None => return None,
        };
        sum = match sum.checked_add(&r) {
            Some(d) => d,
            None => return None,
        };
        if r.lt(&target) {
            let shortfall = match r.checked_sub(&target) {
                Some(d) => d,
                None => return None,
            };
            down_sq = match add_square_exec(&down_sq, &shortfall) {
                Some(d) => d,
                None => return None,
            };
            down_count = down_count + 1;
        }
        count = count + 1;
        prev = v;
        i = i + 1;
    }
    proof {
        assert(rest.skip(i - 1).len() == 0);
    }
    sortino_finish_exec(sum, down_sq, down_count, count, target, Ghost(prev@))
}

/// The annualized Sortino ratio of `portfolio_history` (chronological,
/// oldest first) against the daily `target_return` (e.g. the risk-free rate
/// divided by 365).
pub fn calculate_sortino_ratio(portfolio_history: &[(Timestamp, Dec)], target_return: Dec) -> (r:
    Result<Dec, KpiError>)
    requires
        portfolio_history.len() <= i32::MAX,
        sortino_spec(values_of(portfolio_history@), target_return@) is Some,
    ensures
        result_is(r, sortino_spec(values_of(portfolio_history@), target_return@)->0),
{
    match sortino_checked(portfolio_history, target_return) {
        Some(r) => r,
        None => {
            proof {
                assert(false);
            }
            Ok(Dec::zero())
        },
    }
}

/// `calculate_sortino_ratio` where `Decimal` arithmetic does not panic, and
/// `None` where it would.
pub fn try_calculate_sortino_ratio(portfolio_history: &[(Timestamp, Dec)], target_return: Dec) -> (r:
    Option<Result<Dec, KpiError>>)
    requires
        portfolio_history.len() <= i32::MAX,
    ensures
        r is Some <==> sortino_spec(values_of(portfolio_history@), target_return@) is Some,
        r matches Some(res) ==> result_is(
            res,
            sortino_spec(values_of(portfolio_history@), target_return@)->0,
        ),
{
    sortino_checked(portfolio_history, target_return)
}

// ---------------------------------------------------------------------------
// Profit and loss of a position

/// The profit-and-loss figures of a position.
pub struct KpiCalculationResult {
    pub all_time_pnl: Dec,
    pub unrealized_pnl: Dec,
    pub realized_pnl: Dec,
}

/// The PnL of a position with `share_balance` shares valued at
/// `current_share_price`, given its cost basis and realized PnL: the share
/// price must be positive and the balance not negative; a zero balance has
/// all figures zero; else unrealized = balance * price - cost basis and
/// all-time = realized + unrealized. `None` where `Decimal` arithmetic would
/// overflow; the outer `Err` carries the failure of the checks, the inner
/// one (`Ok(Err(()))`) the failure of the cost basis.
pub open spec fn user_kpis_spec(
    share_balance: DecView,
    price: DecView,
    cost_basis: Option<(DecView, DecView)>,
) -> Option<Result<Result<(DecView, DecView, DecView), ()>, KpiFailure>> {
    if price.0 <= 0 {
        Some(Err(KpiFailure::NonPositiveSharePrice))
    } else if share_balance.0 < 0 {
        Some(Err(KpiFailure::NegativeShareBalance))
    } else if share_balance.0 == 0 {
        Some(Ok(Ok((zero_view(), zero_view(), zero_view()))))
    } else {
        match cost_basis {
            None => Some(Ok(Err(()))),
            Some((cost, realized)) => match decimal_checked_mul(share_balance, price) {
                None => None,
                Some(value) => match decimal_checked_sub(value, cost) {
                    None => None,
                    Some(unrealized) => match decimal_checked_add(realized, unrealized) {
                        None => None,
                        Some(all_time) => Some(Ok(Ok((all_time, unrealized, realized)))),
                    },
                },
            },
        }
    }
}

/// The cost-basis input of `user_kpis_spec`.
pub open spec fn cost_basis_view(c: Result<(Dec, Dec), KpiError>) -> Option<(DecView, DecView)> {
    match c {
        Ok((c, p)) => Some((c@, p@)),
        Err(_) => None,
    }
}

/// For a positive share price and a positive share balance, the PnL of a
/// position is its value (balance times price) less its cost basis for the
/// unrealized part, whatever its sign, plus the realized PnL for the
/// all-time part; it is computed exactly when these operations fit in
/// `Decimal`.
pub proof fn lemma_user_pnl_is_value_less_cost(
    share_balance: DecView,
    price: DecView,
    cost_basis: DecView,
    realized: DecView,
)
    requires
        price.0 > 0,
        share_balance.0 > 0,
    ensures
        user_kpis_spec(share_balance, price, Some((cost_basis, realized))) is Some <==> {
            &&& decimal_checked_mul(share_balance, price) is Some
            &&& decimal_checked_sub(decimal_checked_mul(share_balance, price)->0, cost_basis) is Some
            &&& decimal_checked_add(
                realized,
                decimal_checked_sub(decimal_checked_mul(share_balance, price)->0, cost_basis)->0,
            ) is Some
        },
        user_kpis_spec(share_balance, price, Some((cost_basis, realized))) matches Some(
            Ok(Ok((all_time, unrealized, r))),
        ) ==> {
            &&& Some(unrealized) == decimal_checked_sub(
                decimal_checked_mul(share_balance, price)->0,
                cost_basis,
            )
            &&& Some(all_time) == decimal_checked_add(realized, unrealized)
            &&& r == realized
        },
        user_kpis_spec(share_balance, price, Some((cost_basis, realized))) is Some ==> user_kpis_spec(
            share_balance,
            price,
            Some((cost_basis, realized)),
        )->0 is Ok && user_kpis_spec(share_balance, price, Some((cost_basis, realized)))->0->Ok_0 is Ok,
{
}

/// The checks of the PnL figures, in order: a share price that is not
/// positive is refused, then a negative share balance; a zero balance has
/// all figures zero whatever the cost basis; a positive balance whose cost
/// basis could not be computed hands that failure on.
pub proof fn lemma_user_pnl_checks(
    share_balance: DecView,
    price: DecView,
    cost_basis: Option<(DecView, DecView)>,
)
    ensures
        price.0 <= 0 ==> user_kpis_spec(share_balance, price, cost_basis) == Some(
            Err::<Result<(DecView, DecView, DecView), ()>, KpiFailure>(
                KpiFailure::NonPositiveSharePrice,
            ),
        ),
        price.0 > 0 && share_balance.0 < 0 ==> user_kpis_spec(share_balance, price, cost_basis)
            == Some(
            Err::<Result<(DecView, DecView, DecView), ()>, KpiFailure>(
                KpiFailure::NegativeShareBalance,
            ),
        ),
        price.0 > 0 && share_balance.0 == 0 ==> user_kpis_spec(share_balance, price, cost_basis)
            == Some(
            Ok::<Result<(DecView, DecView, DecView), ()>, KpiFailure>(
                Ok((zero_view(), zero_view(), zero_view())),
            ),
        ),
        price.0 > 0 && share_balance.0 > 0 && cost_basis is None ==> user_kpis_spec(
            share_balance,
            price,
            cost_basis,
        ) == Some(Ok::<Result<(DecView, DecView, DecView), ()>, KpiFailure>(Err(()))),
{
}

/// `r` is the answer `s` describes: the error of a failed check, the error
/// of the cost basis `c` handed on as it is, or the three figures.
pub open spec fn user_kpis_outcome(
    r: Result<KpiCalculationResult, KpiError>,
    s: Result<Result<(DecView, DecView, DecView), ()>, KpiFailure>,
    c: Result<(Dec, Dec), KpiError>,
) -> bool {
    match s {
        Err(f) => r matches Err(e) && e.reports(f),
        Ok(Err(())) => r is Err && c is Err && r->Err_0 == c->Err_0,
        Ok(Ok((all_time, unrealized, realized))) => r matches Ok(k) && k.all_time_pnl@ == all_time
            && k.unrealized_pnl@ == unrealized && k.realized_pnl@ == realized,
    }
}

/// The PnL of a position holding `share_balance` shares at the current share
/// price, given the position's `(cost basis, realized PnL)` as computed from
/// its chronological transactions (or the error that computation gave).
pub fn calculate_user_kpis(
    share_balance: Dec,
    current_share_price: Dec,
    cost_basis_and_realized_pnl: Result<(Dec, Dec), KpiError>,
) -> (r: Result<KpiCalculationResult, KpiError>)
    requires
        user_kpis_spec(
            share_balance@,
            current_share_price@,
            cost_basis_view(cost_basis_and_realized_pnl),
        ) is Some,
    ensures
        user_kpis_outcome(
            r,
            user_kpis_spec(
                share_balance@,
                current_share_price@,
                cost_basis_view(cost_basis_and_realized_pnl),
            )->0,
            cost_basis_and_realized_pnl,
        ),
{
    if !current_share_price.is_positive() {
        return Err(KpiError::from_failure(KpiFailure::NonPositiveSharePrice));
    }
    if share_balance.is_negative() {
        return Err(KpiError::from_failure(KpiFailure::NegativeShareBalance));
    }
    if share_balance.is_zero() {
        return Ok(
            KpiCalculationResult {
                all_time_pnl: Dec::zero(),
                unrealized_pnl: Dec::zero(),
                realized_pnl: Dec::zero(),
            },
        );
    }
    let (cost_basis, realized_pnl) = match cost_basis_and_realized_pnl {
        Ok(pair) => pair,
        Err(e) => return Err(e),
    };
    let value = share_balance.checked_mul(&current_share_price).unwrap();
    let unrealized_pnl = value.checked_sub(&cost_basis).unwrap();
    let all_time_pnl = realized_pnl.checked_add(&unrealized_pnl).unwrap();
    Ok(KpiCalculationResult { all_time_pnl, unrealized_pnl, realized_pnl })
}

/// `calculate_user_kpis` where `Decimal` arithmetic does not overflow, and
/// `None` where it would.
pub fn try_calculate_user_kpis(
    share_balance: Dec,
    current_share_price: Dec,
    cost_basis_and_realized_pnl: Result<(Dec, Dec), KpiError>,
) -> (r: Option<Result<KpiCalculationResult, KpiError>>)
    ensures
        r is Some <==> user_kpis_spec(
            share_balance@,
            current_share_price@,
            cost_basis_view(cost_basis_and_realized_pnl),
        ) is Some,
        r matches Some(res) ==> user_kpis_outcome(
            res,
            user_kpis_spec(
                share_balance@,
                current_share_price@,
                cost_basis_view(cost_basis_and_realized_pnl),
            )->0,
            cost_basis_and_realized_pnl,
        ),
{
    let overflows = match &cost_basis_and_realized_pnl {
        Ok((cost_basis, realized_pnl)) => {
            if current_share_price.is_positive() && share_balance.is_positive() {
                match share_balance.checked_mul(&current_share_price) {
                    None => true,
                    Some(value) => match value.checked_sub(cost_basis) {
                        None => true,
                        Some(unrealized) => realized_pnl.checked_add(&unrealized).is_none(),
                    },
                }
            } else {
                false
            }
        },
        Err(_) => false,
    };
    if overflows {
        None
    } else {
        Some(calculate_user_kpis(share_balance, current_share_price, cost_basis_and_realized_pnl))
    }
}

// ---------------------------------------------------------------------------
// KPI history

/// The value of `metric` in a KPI snapshot.
pub open spec fn metric_value_spec(k: UserKpi, metric: PerformanceMetric) -> Option<Dec> {
    match metric {
        PerformanceMetric::AllTimePnl => k.all_time_pnl,
        PerformanceMetric::UnrealizedPnl => k.unrealized_pnl,
        PerformanceMetric::RealizedPnl => k.realized_pnl,
    }
}

impl UserKpi {
    /// The value of `metric` in this snapshot.
    pub fn get_metric_value(&self, metric: &PerformanceMetric) -> (r: Option<Dec>)
        ensures
            r == metric_value_spec(*self, *metric),
    {
        match metric {
            PerformanceMetric::AllTimePnl => self.all_time_pnl,
            PerformanceMetric::UnrealizedPnl => self.unrealized_pnl,
            PerformanceMetric::RealizedPnl => self.realized_pnl,
        }
    }
}

/// The `(calculated_at, value of metric)` points of chronological snapshots,
/// skipping those that lack either.
pub open spec fn metric_points(kpis: Seq<UserKpi>, metric: PerformanceMetric) -> Seq<(Timestamp, Dec)>
    decreases kpis.len(),
{
    if kpis.len() == 0 {
        Seq::empty()
    } else {
        let rest = metric_points(kpis.drop_last(), metric);
        let k = kpis.last();
        if k.calculated_at is Some && metric_value_spec(k, metric) is Some {
            rest.push((k.calculated_at->0, metric_value_spec(k, metric)->0))
        } else {
            rest
        }
    }
}

/// The historical performance series of `metric` from chronological KPI
/// snapshots.
pub fn historical_performance_points(kpis: &Vec<UserKpi>, metric: &PerformanceMetric) -> (r: Vec<
    (Timestamp, Dec),
>)
    ensures
        r@ == metric_points(kpis@, *metric),
{
    let mut out: Vec<(Timestamp, Dec)> = Vec::new();
    let mut i: usize = 0;
    while i < kpis.len()
        invariant
            i <= kpis.len(),
            out@ == metric_points(kpis@.take(i as int), *metric),
        decreases kpis.len() - i,
    {
        proof {
            assert(kpis@.take(i + 1).drop_last() =~= kpis@.take(i as int));
        }
        let k = &kpis[i];
        match (k.calculated_at, k.get_metric_value(metric)) {
            (Some(t), Some(v)) => {
                out.push((t, v));
            },
            _ => {},
        }
        i = i + 1;
    }
    proof {
        assert(kpis@.take(kpis.len() as int) =~= kpis@);
    }
    out
}

/// The `(calculated_at, share_balance * share_price_used)` points of
/// chronological snapshots that hold all three, or `None` where a product
/// overflows.
pub open spec fn portfolio_points(kpis: Seq<UserKpi>) -> Option<Seq<(Timestamp, DecView)>>
    decreases kpis.len(),
{
    if kpis.len() == 0 {
        Some(Seq::empty())
    } else {
        match portfolio_points(kpis.drop_last()) {
            None => None,
            Some(rest) => {
                let k = kpis.last();
                if k.calculated_at is Some && k.share_price_used is Some && k.share_balance is Some {
                    match decimal_checked_mul(k.share_balance->0@, k.share_price_used->0@) {
                        None => None,
                        Some(v) => Some(rest.push((k.calculated_at->0, v))),
                    }
                } else {
                    Some(rest)
                }
            },
        }
    }
}

fn portfolio_points_checked(kpis: &Vec<UserKpi>) -> (r: Option<Vec<(Timestamp, Dec)>>)
    ensures
        r is Some <==> portfolio_points(kpis@) is Some,
        r matches Some(v) ==> v@.map_values(|p: (Timestamp, Dec)| (p.0, p.1@)) == portfolio_points(
            kpis@,
        )->0,
{
    let mut out: Vec<(Timestamp, Dec)> = Vec::new();
    let mut i: usize = 0;
    while i < kpis.len()
        invariant
            i <= kpis.len(),
            portfolio_points(kpis@.take(i as int)) is Some,
            out@.map_values(|p: (Timestamp, Dec)| (p.0, p.1@)) == portfolio_points(
                kpis@.take(i as int),
            )->0,
        decreases kpis.len() - i,
    {
        proof {
            assert(kpis@.take(i + 1).drop_last() =~= kpis@.take(i as int));
        }
        let k = &kpis[i];
        match (k.calculated_at, k.share_price_used, k.share_balance) {
            (Some(t), Some(price), Some(balance)) => {
                match balance.checked_mul(&price) {
                    Some(v) => {
                        let ghost before = out@;
                        out.push((t, v));
                        proof {
                            assert(out@.map_values(|p: (Timestamp, Dec)| (p.0, p.1@)) =~= before.map_values(
                                |p: (Timestamp, Dec)| (p.0, p.1@),
                            ).push((t, v@)));
                        }
                    },
                    None => {
                        proof {
                            lemma_portfolio_points_none_prefix(kpis@, i as int + 1);
                        }
                        return None;
                    },
                }
            },
            _ => {},
        }
        i = i + 1;
    }
    proof {
        assert(kpis@.take(kpis.len() as int) =~= kpis@);
    }
    Some(out)
}

/// Once a prefix overflows, every longer prefix does.
proof fn lemma_portfolio_points_none_prefix(kpis: Seq<UserKpi>, n: int)
    requires
        0 <= n <= kpis.len(),
        portfolio_points(kpis.take(n)) is None,
    ensures
        portfolio_points(kpis) is None,
    decreases kpis.len() - n,
{
    if n == kpis.len() {
        assert(kpis.take(n) =~= kpis);
    } else {
        assert(kpis.take(n + 1).drop_last() =~= kpis.take(n));
        lemma_portfolio_points_none_prefix(kpis, n + 1);
    }
}

/// The portfolio value series `(calculated_at, share_balance *
/// share_price_used)` of chronological KPI snapshots, skipping those that
/// lack a field.
pub fn portfolio_history_points(kpis: &Vec<UserKpi>) -> (r: Vec<(Timestamp, Dec)>)
    requires
        portfolio_points(kpis@) is Some,
    ensures
        r@.map_values(|p: (Timestamp, Dec)| (p.0, p.1@)) == portfolio_points(kpis@)->0,
{
    match portfolio_points_checked(kpis) {
        Some(v) => v,
        None => {
            proof {
                assert(false);
            }
            Vec::new()
        },
    }
}

/// `portfolio_history_points` where no product overflows, `None` where one
/// would.
pub fn try_portfolio_history_points(kpis: &Vec<UserKpi>) -> (r: Option<Vec<(Timestamp, Dec)>>)
    ensures
        r is Some <==> portfolio_points(kpis@) is Some,
        r matches Some(v) ==> v@.map_values(|p: (Timestamp, Dec)| (p.0, p.1@)) == portfolio_points(
            kpis@,
        )->0,
{
    portfolio_points_checked(kpis)
}

} // verus!
