use pragma::decimal::Dec;
use pragma::kpi::{
    calculate_max_drawdown, calculate_sharpe_ratio, calculate_sortino_ratio, calculate_user_kpis,
    historical_performance_points, portfolio_history_points, try_calculate_max_drawdown,
    try_calculate_sharpe_ratio, try_calculate_sortino_ratio, try_calculate_user_kpis,
    try_portfolio_history_points, KpiError,
};
use pragma::models::UserKpi;
use pragma::time::Timestamp;
use pragma::types::PerformanceMetric;
use rust_decimal::prelude::FromPrimitive;
use rust_decimal::Decimal;
use rust_decimal::MathematicalOps;

fn dec(s: &str) -> Dec {
    let d: Decimal = s.parse().unwrap();
    Dec::new(d.mantissa(), d.scale()).unwrap()
}

fn decimal(d: &Dec) -> Decimal {
    Decimal::from_i128_with_scale(d.mantissa(), d.scale())
}

fn at(day: i64) -> Timestamp {
    Timestamp { secs: day * 86400, nanos: 0 }
}

fn history(values: &[&str]) -> Vec<(Timestamp, Dec)> {
    values.iter().enumerate().map(|(i, v)| (at(i as i64), dec(v))).collect()
}

fn sqrt_365() -> Decimal {
    Decimal::from_f64(365.0_f64.sqrt()).unwrap()
}

fn negative_value() -> KpiError {
    KpiError::InvalidData("Portfolio value cannot be negative".to_string())
}

fn zero_previous() -> KpiError {
    KpiError::InvalidData("Previous portfolio value is zero, cannot calculate return".to_string())
}

// ---------------------------------------------------------------------------
// Maximum drawdown

#[test]
fn max_drawdown_of_empty_history_is_zero() {
    let r = calculate_max_drawdown(&[]).unwrap();
    assert!(r.is_zero());
}

#[test]
fn max_drawdown_measures_fall_from_peak_in_percent() {
    let r = calculate_max_drawdown(&history(&["100", "120", "90", "130"])).unwrap();
    assert_eq!(decimal(&r), Decimal::from(25));
}

#[test]
fn max_drawdown_keeps_the_deepest_fall() {
    let r = calculate_max_drawdown(&history(&["50", "40", "60", "30", "55"])).unwrap();
    assert_eq!(decimal(&r), Decimal::from(50));
}

#[test]
fn max_drawdown_of_rising_history_is_zero() {
    let r = calculate_max_drawdown(&history(&["1", "2", "3"])).unwrap();
    assert!(r.is_zero());
}

#[test]
fn max_drawdown_ignores_falls_from_a_zero_peak() {
    let r = calculate_max_drawdown(&history(&["0", "0", "0"])).unwrap();
    assert!(r.is_zero());
}

#[test]
fn max_drawdown_refuses_negative_value() {
    let r = calculate_max_drawdown(&history(&["100", "-1", "50"]));
    assert_eq!(r, Err(negative_value()));
}

#[test]
fn try_max_drawdown_agrees_with_max_drawdown() {
    let r = try_calculate_max_drawdown(&history(&["100", "80"])).unwrap().unwrap();
    assert_eq!(decimal(&r), Decimal::from(20));
}

// ---------------------------------------------------------------------------
// Sharpe ratio

#[test]
fn sqrt_of_days_per_year_is_the_f64_root_converted() {
    assert_eq!(sqrt_365(), Decimal::from_i128_with_scale(191049731745428, 13));
}

#[test]
fn sharpe_of_short_history_is_zero() {
    assert!(calculate_sharpe_ratio(&history(&["100"]), dec("0.05")).unwrap().is_zero());
    assert!(calculate_sharpe_ratio(&[], dec("0.05")).unwrap().is_zero());
}

#[test]
fn sharpe_without_volatility_is_zero() {
    let r = calculate_sharpe_ratio(&history(&["100", "100", "100"]), dec("0.05")).unwrap();
    assert!(r.is_zero());
}

#[test]
fn sharpe_annualizes_mean_and_deviation_of_daily_returns() {
    // Returns 1 and -0.5: mean 0.25, variance 0.625 - 0.0625 = 0.5625.
    let r = calculate_sharpe_ratio(&history(&["1", "2", "1"]), dec("0.05")).unwrap();
    let std_dev = Decimal::from_str_exact("0.5625").unwrap().sqrt().unwrap();
    assert_eq!(std_dev, Decimal::from_str_exact("0.75").unwrap());
    let expected = (Decimal::from_str_exact("0.25").unwrap() * Decimal::from(365)
        - Decimal::from_str_exact("0.05").unwrap())
        / (std_dev * sqrt_365());
    assert_eq!(decimal(&r), expected);
}

#[test]
fn sharpe_refuses_negative_values() {
    assert_eq!(
        calculate_sharpe_ratio(&history(&["-1", "2"]), dec("0")),
        Err(negative_value())
    );
    assert_eq!(
        calculate_sharpe_ratio(&history(&["1", "2", "-3"]), dec("0")),
        Err(negative_value())
    );
}

#[test]
fn sharpe_refuses_zero_previous_value() {
    assert_eq!(
        calculate_sharpe_ratio(&history(&["0", "2"]), dec("0")),
        Err(zero_previous())
    );
}

#[test]
fn try_sharpe_is_none_where_decimal_overflows() {
    let h = vec![(at(0), dec("1")), (at(1), Dec::max_value())];
    assert!(try_calculate_sharpe_ratio(&h, dec("0")).is_none());
}

#[test]
fn try_sharpe_agrees_with_sharpe() {
    let h = history(&["100", "100", "100"]);
    assert!(try_calculate_sharpe_ratio(&h, dec("0")).unwrap().unwrap().is_zero());
}

// ---------------------------------------------------------------------------
// Sortino ratio

#[test]
fn sortino_of_short_history_is_zero() {
    assert!(calculate_sortino_ratio(&history(&["7"]), dec("0")).unwrap().is_zero());
}

#[test]
fn sortino_without_downside_and_excess_return_is_max() {
    let r = calculate_sortino_ratio(&history(&["100", "110", "121"]), dec("0")).unwrap();
    assert_eq!(decimal(&r), Decimal::MAX);
}

#[test]
fn sortino_without_downside_or_excess_return_is_zero() {
    let r = calculate_sortino_ratio(&history(&["100", "100"]), dec("0")).unwrap();
    assert!(r.is_zero());
}

#[test]
fn sortino_annualizes_against_downside_deviation() {
    // Returns 1 and -0.5; only -0.5 falls below the target 0.
    let r = calculate_sortino_ratio(&history(&["1", "2", "1"]), dec("0")).unwrap();
    let downside_dev = Decimal::from_str_exact("0.25").unwrap().sqrt().unwrap();
    let expected = (Decimal::from_str_exact("0.25").unwrap() * Decimal::from(365)
        - Decimal::ZERO * Decimal::from(365))
        / (downside_dev * sqrt_365());
    assert_eq!(decimal(&r), expected);
}

#[test]
fn sortino_refuses_negative_and_zero_previous_values() {
    assert_eq!(
        calculate_sortino_ratio(&history(&["1", "-2"]), dec("0")),
        Err(negative_value())
    );
    assert_eq!(
        calculate_sortino_ratio(&history(&["0", "1"]), dec("0")),
        Err(zero_previous())
    );
}

#[test]
fn try_sortino_is_none_where_decimal_overflows() {
    // The mean return is near half of Decimal::MAX; annualizing it overflows.
    let h = vec![(at(0), dec("1")), (at(1), Dec::max_value()), (at(2), dec("1"))];
    assert!(try_calculate_sortino_ratio(&h, dec("0")).is_none());
}

// ---------------------------------------------------------------------------
// Profit and loss of a position

#[test]
fn user_kpis_of_a_position() {
    let r = calculate_user_kpis(dec("10"), dec("2"), Ok((dec("15"), dec("3")))).unwrap();
    assert_eq!(decimal(&r.unrealized_pnl), Decimal::from(5));
    assert_eq!(decimal(&r.realized_pnl), Decimal::from(3));
    assert_eq!(decimal(&r.all_time_pnl), Decimal::from(8));
}

#[test]
fn user_kpis_of_an_empty_position_are_zero() {
    let cost_error = Err(KpiError::CalculationError("no history".to_string()));
    let r = calculate_user_kpis(dec("0"), dec("2"), cost_error).unwrap();
    assert!(r.all_time_pnl.is_zero());
    assert!(r.unrealized_pnl.is_zero());
    assert!(r.realized_pnl.is_zero());
}

#[test]
fn user_kpis_refuse_non_positive_price() {
    let r = calculate_user_kpis(dec("1"), dec("0"), Ok((dec("1"), dec("0"))));
    assert_eq!(
        r.err(),
        Some(KpiError::InvalidData(
            "Current share price cannot be zero or negative".to_string()
        ))
    );
}

#[test]
fn user_kpis_refuse_negative_balance() {
    let r = calculate_user_kpis(dec("-1"), dec("1"), Ok((dec("1"), dec("0"))));
    assert_eq!(
        r.err(),
        Some(KpiError::InvalidData("Share balance cannot be negative".to_string()))
    );
}

#[test]
fn user_kpis_hand_on_the_cost_basis_error() {
    let e = KpiError::InvalidData("bad transaction".to_string());
    let r = calculate_user_kpis(dec("1"), dec("1"), Err(e));
    assert_eq!(r.err(), Some(KpiError::InvalidData("bad transaction".to_string())));
}

#[test]
fn try_user_kpis_is_none_where_decimal_overflows() {
    let r = try_calculate_user_kpis(Dec::max_value(), dec("2"), Ok((dec("0"), dec("0"))));
    assert!(r.is_none());
    let r = try_calculate_user_kpis(dec("3"), dec("2"), Ok((dec("1"), dec("1")))).unwrap();
    assert_eq!(decimal(&r.unwrap().all_time_pnl), Decimal::from(6));
}

// ---------------------------------------------------------------------------
// KPI history

fn ts(secs: i64) -> Timestamp {
    Timestamp { secs, nanos: 0 }
}

fn kpi(
    calculated_at: Option<Timestamp>,
    all_time_pnl: Option<Dec>,
    share_balance: Option<Dec>,
    share_price_used: Option<Dec>,
) -> UserKpi {
    UserKpi {
        id: 1,
        user_address: "0xabc".to_string(),
        vault_id: "1".to_string(),
        all_time_pnl,
        unrealized_pnl: Some(dec("1")),
        realized_pnl: None,
        max_drawdown_pct: None,
        sharpe_ratio: None,
        total_deposits: None,
        total_withdrawals: None,
        total_fees_paid: None,
        calculated_at,
        share_price_used,
        created_at: None,
        updated_at: None,
        sortino_ratio: None,
        share_balance,
    }
}

#[test]
fn metric_value_reads_the_asked_metric() {
    let k = kpi(Some(ts(1)), Some(dec("4")), None, None);
    assert_eq!(
        decimal(&k.get_metric_value(&PerformanceMetric::AllTimePnl).unwrap()),
        Decimal::from(4)
    );
    assert_eq!(
        decimal(&k.get_metric_value(&PerformanceMetric::UnrealizedPnl).unwrap()),
        Decimal::from(1)
    );
    assert!(k.get_metric_value(&PerformanceMetric::RealizedPnl).is_none());
}

#[test]
fn historical_points_skip_snapshots_without_time_or_value() {
    let kpis = vec![
        kpi(Some(ts(1)), Some(dec("4")), None, None),
        kpi(None, Some(dec("5")), None, None),
        kpi(Some(ts(3)), None, None, None),
        kpi(Some(ts(4)), Some(dec("-2")), None, None),
    ];
    let points = historical_performance_points(&kpis, &PerformanceMetric::AllTimePnl);
    assert_eq!(points.len(), 2);
    assert_eq!(points[0].0, ts(1));
    assert_eq!(decimal(&points[0].1), Decimal::from(4));
    assert_eq!(points[1].0, ts(4));
    assert_eq!(decimal(&points[1].1), Decimal::from(-2));
}

#[test]
fn portfolio_points_value_balance_at_price_used() {
    let kpis = vec![
        kpi(Some(ts(1)), None, Some(dec("3")), Some(dec("1.5"))),
        kpi(Some(ts(2)), None, None, Some(dec("1.5"))),
        kpi(Some(ts(3)), None, Some(dec("2")), Some(dec("2"))),
    ];
    let points = portfolio_history_points(&kpis);
    assert_eq!(points.len(), 2);
    assert_eq!(decimal(&points[0].1), Decimal::from_str_exact("4.5").unwrap());
    assert_eq!(points[1].0, ts(3));
    assert_eq!(decimal(&points[1].1), Decimal::from(4));
}

#[test]
fn try_portfolio_points_is_none_where_a_product_overflows() {
    let kpis = vec![kpi(Some(ts(1)), None, Some(Dec::max_value()), Some(dec("2")))];
    assert!(try_portfolio_history_points(&kpis).is_none());
}

#[test]
fn kpi_upsert_record_carries_every_figure() {
    let update = pragma::models::UserKpiUpdate {
        all_time_pnl: Some(dec("8")),
        unrealized_pnl: Some(dec("5")),
        realized_pnl: Some(dec("3")),
        max_drawdown_pct: Some(dec("12.5")),
        sharpe_ratio: None,
        sortino_ratio: Some(dec("1.1")),
        total_deposits: Some(dec("100")),
        total_withdrawals: None,
        total_fees_paid: Some(dec("0")),
        calculated_at: Some(ts(7)),
        share_price_used: Some(dec("1.02")),
        share_balance: Some(dec("98")),
        updated_at: Some(ts(8)),
    };
    let n = pragma::models::new_user_kpi("0xab", "2", &update);
    assert_eq!(n.user_address, "0xab");
    assert_eq!(n.vault_id, "2");
    assert_eq!(decimal(&n.all_time_pnl.unwrap()), Decimal::from(8));
    assert_eq!(decimal(&n.max_drawdown_pct.unwrap()), Decimal::from_str_exact("12.5").unwrap());
    assert!(n.sharpe_ratio.is_none());
    assert_eq!(n.calculated_at, Some(ts(7)));
    assert_eq!(decimal(&n.share_balance.unwrap()), Decimal::from(98));
}

#[test]
fn square_root_is_the_one_rust_decimal_computes() {
    for s in [
        "0.5625", "0.25", "2", "3", "10", "0.01", "0.0000000000000000000000000001", "12345.6789",
        "79228162514264337593543950335", "0.000123", "1", "99.999", "7.5",
    ] {
        let d: Decimal = s.parse().unwrap();
        let ours = dec(s).try_sqrt().unwrap().unwrap();
        assert_eq!(decimal(&ours), d.sqrt().unwrap(), "{s}");
    }
    assert!(dec("0").try_sqrt().unwrap().unwrap().is_zero());
    assert!(dec("-4").try_sqrt().unwrap().is_none());
    assert!(dec("1.50").value_equals(&dec("1.5")));
    assert!(!dec("1.51").value_equals(&dec("1.5")));
}
