use pragma::decimal::Dec;
use pragma::dto::{
    AlternativeHistoryEntry, AlternativeVaultDTO, AprBasis, PendingRedeem,
    UserTransaction as TransactionItem, UserProfile,
};
use pragma::handlers::{
    alternative_timeseries, cursor_id, find_vault_by_address, historical_user_performance,
    history_params, is_alternative_vault, latest_two_reports, map_status, nav_latest_fields,
    page_limit, page_of, pending_transactions, position_figures,
    position_not_found, position_summary, total_pending, transaction_history,
    try_position_figures, try_total_pending, user_not_found, user_position_not_found,
    validate_indexer_status, vault_list_item, vault_not_found, with_current_pnl,
    VaultListFigures,
};
use pragma::kpi::KpiCalculationResult;
use pragma::models::{IndexerState, User, UserKpi, UserPosition, UserTransaction};
use pragma::response::{ApiError, ApiResponse, ResponseStatus};
use pragma::time::Timestamp;
use pragma::types::{
    DisplayCurrency, PerformanceMetric, Timeframe, TransactionStatus, TransactionType,
};
use rust_decimal::Decimal;

fn dec(s: &str) -> Dec {
    let d: Decimal = s.parse().unwrap();
    Dec::new(d.mantissa(), d.scale()).unwrap()
}

fn decimal(d: &Dec) -> Decimal {
    Decimal::from_i128_with_scale(d.mantissa(), d.scale())
}

fn ts(secs: i64) -> Timestamp {
    Timestamp { secs, nanos: 0 }
}

fn message(e: &ApiError) -> Option<&str> {
    match e {
        ApiError::DbError(m)
        | ApiError::NotImplemented(m)
        | ApiError::Unauthorized(m)
        | ApiError::NotFound(m)
        | ApiError::BadRequest(m)
        | ApiError::ServiceUnavailable(m) => Some(m.as_str()),
        ApiError::InternalServerError => None,
    }
}

fn tx(id: i32, vault_id: &str, type_: &str, status: &str, amount: &str) -> UserTransaction {
    UserTransaction {
        id,
        tx_hash: format!("0x{id}"),
        block_number: 100 + id as i64,
        block_timestamp: ts(1000 + id as i64),
        user_address: "0xuser".to_string(),
        vault_id: vault_id.to_string(),
        type_: type_.to_string(),
        status: status.to_string(),
        amount: dec(amount),
        shares_amount: None,
        share_price: None,
        gas_fee: None,
        metadata: None,
        created_at: None,
        updated_at: None,
    }
}

// ---------------------------------------------------------------------------
// Responses and errors

#[test]
fn ok_response_carries_data() {
    let r = ApiResponse::ok(5u32);
    assert_eq!(r.status, ResponseStatus::Success);
    assert_eq!(r.data, Some(5));
    assert_eq!(r.msg, None);
}

#[test]
fn error_response_carries_message() {
    let r: ApiResponse<u32> = ApiResponse::error("nope".to_string());
    assert_eq!(r.status, ResponseStatus::Error);
    assert_eq!(r.data, None);
    assert_eq!(r.msg.as_deref(), Some("nope"));
}

#[test]
fn error_status_codes() {
    assert_eq!(ApiError::DbError("x".to_string()).status_code(), 500);
    assert_eq!(ApiError::NotImplemented("x".to_string()).status_code(), 501);
    assert_eq!(ApiError::Unauthorized("x".to_string()).status_code(), 401);
    assert_eq!(ApiError::NotFound("x".to_string()).status_code(), 404);
    assert_eq!(ApiError::BadRequest("x".to_string()).status_code(), 400);
    assert_eq!(ApiError::ServiceUnavailable("x".to_string()).status_code(), 503);
    assert_eq!(ApiError::InternalServerError.status_code(), 500);
}

#[test]
fn error_responses_carry_the_message() {
    let (code, body) = ApiError::NotFound("Vault 9 not found".to_string()).into_response_parts();
    assert_eq!(code, 404);
    assert_eq!(body.status, ResponseStatus::Error);
    assert_eq!(body.msg.as_deref(), Some("Vault 9 not found"));
    let (code, body) = ApiError::InternalServerError.into_response_parts();
    assert_eq!(code, 500);
    assert_eq!(body.msg.as_deref(), Some("Internal server error"));
}

#[test]
fn not_found_messages() {
    assert_eq!(message(&vault_not_found("9")), Some("Vault 9 not found"));
    assert_eq!(message(&user_not_found("0xab")), Some("User 0xab not found"));
    assert_eq!(
        message(&position_not_found("0xab", "3")),
        Some("Position for user 0xab in vault 3 not found")
    );
    assert_eq!(
        message(&user_position_not_found("0xab", "3")),
        Some("User 0xab position in vault 3 not found")
    );
    assert_eq!(vault_not_found("9").status_code(), 404);
}

// ---------------------------------------------------------------------------
// Vaults

#[test]
fn active_status_is_shown_as_live() {
    assert_eq!(map_status("active"), "live");
    assert_eq!(map_status("paused"), "paused");
    assert_eq!(map_status("Active"), "Active");
}

#[test]
fn vaults_two_to_six_use_the_alternative_api() {
    for id in ["2", "3", "4", "5", "6", "+4", "006"] {
        assert!(is_alternative_vault(id), "{id}");
    }
    for id in ["1", "7", "0", "-3", "abc", "", " 2", "2.0"] {
        assert!(!is_alternative_vault(id), "{id}");
    }
}

#[test]
fn history_params_by_timeframe() {
    let p = history_params("7d");
    assert_eq!((p.max_reports, p.apr_calculation_delta), (20, 7));
    let p = history_params("30d");
    assert_eq!((p.max_reports, p.apr_calculation_delta), (60, 7));
    let p = history_params("1y");
    assert_eq!((p.max_reports, p.apr_calculation_delta), (120, 30));
    let p = history_params("all");
    assert_eq!((p.max_reports, p.apr_calculation_delta), (200, 30));
}

#[test]
fn apr_basis_from_query() {
    assert_eq!(AprBasis::from_query("inflation_adjusted"), AprBasis::InflationAdjusted);
    assert_eq!(AprBasis::from_query("nominal"), AprBasis::Nominal);
    assert_eq!(AprBasis::from_query("other"), AprBasis::Nominal);
}

fn alternative(tvl: Option<&str>, apr: Option<&str>) -> AlternativeVaultDTO {
    AlternativeVaultDTO {
        vault: "0xVault".to_string(),
        tvl: tvl.map(|s| s.to_string()),
        tvl_usd: None,
        share_price: None,
        apr: apr.map(|s| s.to_string()),
        average_redeem_delay: Some("2d".to_string()),
        last_reported: Some("2024-01-01".to_string()),
    }
}

fn list_item(status: &str, figures: VaultListFigures) -> pragma::dto::VaultListItem {
    vault_list_item(
        "3".to_string(),
        "Vault".to_string(),
        None,
        "starknet".to_string(),
        "VLT".to_string(),
        status,
        figures,
    )
}

#[test]
fn vault_list_item_from_alternative_snapshot() {
    let item = list_item("active", VaultListFigures::Alternative(Some(alternative(Some("12"), None))));
    assert_eq!(item.id, "3");
    assert_eq!(item.status, "live");
    assert_eq!(item.tvl, "12");
    assert_eq!(item.apr, "0");
    assert_eq!(item.average_redeem_delay.as_deref(), Some("2d"));
    assert_eq!(item.last_reported.as_deref(), Some("2024-01-01"));
}

#[test]
fn vault_list_item_from_vault_stats() {
    let item = list_item(
        "paused",
        VaultListFigures::Master(Some(("1000".to_string(), "4.5".to_string()))),
    );
    assert_eq!(item.status, "paused");
    assert_eq!(item.tvl, "1000");
    assert_eq!(item.apr, "4.5");
    assert_eq!(item.average_redeem_delay, None);
}

#[test]
fn vault_list_item_after_failed_call_shows_zero() {
    for figures in [VaultListFigures::Alternative(None), VaultListFigures::Master(None)] {
        let item = list_item("active", figures);
        assert_eq!(item.tvl, "0");
        assert_eq!(item.apr, "0");
        assert_eq!(item.last_reported, None);
    }
}

#[test]
fn user_profile_from_user_shows_usd() {
    let user = User {
        address: "0xab".to_string(),
        chain: "starknet".to_string(),
        created_at: None,
        updated_at: None,
    };
    let profile = UserProfile::from(user);
    assert_eq!(profile.address, "0xab");
    assert_eq!(profile.chain, "starknet");
    assert_eq!(profile.display_currency, DisplayCurrency::USD);
}

// ---------------------------------------------------------------------------
// Indexer readiness

fn indexer(status: Option<&str>) -> IndexerState {
    IndexerState {
        id: 1,
        vault_id: "1".to_string(),
        last_processed_block: 10,
        last_processed_timestamp: None,
        last_error: None,
        last_error_at: None,
        status: status.map(|s| s.to_string()),
        created_at: None,
        updated_at: None,
    }
}

#[test]
fn synced_indexer_serves_user_data() {
    assert!(validate_indexer_status(&indexer(Some("synced"))).is_ok());
}

#[test]
fn indexer_in_error_is_unavailable() {
    let e = validate_indexer_status(&indexer(Some("error"))).unwrap_err();
    assert_eq!(e.status_code(), 503);
    assert_eq!(
        message(&e),
        Some("Indexer is currently experiencing issues. Please try again later.")
    );
}

#[test]
fn syncing_indexer_is_unavailable() {
    for status in [None, Some("active"), Some("paused")] {
        let e = validate_indexer_status(&indexer(status)).unwrap_err();
        assert_eq!(e.status_code(), 503);
        assert_eq!(
            message(&e),
            Some("Indexer is still syncing. Data may be incomplete. Please try again later.")
        );
    }
}

// ---------------------------------------------------------------------------
// Transaction history

#[test]
fn page_limit_defaults_and_clamps() {
    assert_eq!(page_limit(None), 50);
    assert_eq!(page_limit(Some(0)), 1);
    assert_eq!(page_limit(Some(-5)), 1);
    assert_eq!(page_limit(Some(20)), 20);
    assert_eq!(page_limit(Some(201)), 200);
    assert_eq!(page_limit(Some(i64::MAX)), 200);
}

#[test]
fn cursor_reads_a_transaction_id() {
    assert_eq!(cursor_id(&None), None);
    assert_eq!(cursor_id(&Some("42".to_string())), Some(42));
    assert_eq!(cursor_id(&Some("-7".to_string())), Some(-7));
    assert_eq!(cursor_id(&Some("x1".to_string())), None);
    assert_eq!(cursor_id(&Some("2147483648".to_string())), None);
}

#[test]
fn page_with_extra_row_has_cursor_to_last_item() {
    let rows = vec![
        tx(9, "1", "deposit", "confirmed", "1"),
        tx(8, "1", "deposit", "confirmed", "2"),
        tx(5, "1", "withdraw", "pending", "3"),
    ];
    let (page, cursor) = page_of(rows, 2);
    assert_eq!(page.iter().map(|t| t.id).collect::<Vec<_>>(), vec![9, 8]);
    assert_eq!(cursor.as_deref(), Some("8"));
    assert_eq!(cursor_id(&cursor), Some(8));
}

#[test]
fn page_without_extra_row_has_no_cursor() {
    let rows = vec![tx(9, "1", "deposit", "confirmed", "1")];
    let (page, cursor) = page_of(rows, 2);
    assert_eq!(page.len(), 1);
    assert_eq!(cursor, None);
}

#[test]
fn transaction_item_shows_id_type_status_and_amount() {
    let item = TransactionItem::from(tx(-12, "4", "claim", "cancelled", "1.50"));
    assert_eq!(item.id, "-12");
    assert_eq!(item.vault_id, "4");
    assert_eq!(item.transaction_type, TransactionType::Claim);
    assert_eq!(item.status, TransactionStatus::Cancelled);
    assert_eq!(item.amount, "1.50");
    assert_eq!(item.tx_hash, "0x-12");
    assert_eq!(item.timestamp, ts(988));
}

#[test]
fn transaction_history_pages_and_shows_rows() {
    let rows = vec![
        tx(3, "1", "deposit", "confirmed", "10"),
        tx(2, "1", "transfer", "failed", "0.5"),
        tx(1, "1", "withdraw", "pending", "7"),
    ];
    let h = transaction_history(rows, 2);
    assert_eq!(h.items.len(), 2);
    assert_eq!(h.items[0].id, "3");
    assert_eq!(h.items[1].transaction_type, TransactionType::Transfer);
    assert_eq!(h.items[1].status, TransactionStatus::Failed);
    assert_eq!(h.items[1].amount, "0.5");
    assert_eq!(h.next_cursor.as_deref(), Some("2"));
}

// ---------------------------------------------------------------------------
// Pending redeems and assets

#[test]
fn pending_redeem_shows_the_request() {
    let r = PendingRedeem::from(tx(4, "2", "withdraw", "pending", "12.5"));
    assert_eq!(r.vault_id, "2");
    assert_eq!(r.amount, "12.5");
    assert_eq!(r.transaction_type, TransactionType::Withdraw);
    assert_eq!(r.tx_hash, "0x4");
    assert_eq!(r.submitted_at, ts(1004));
}

#[test]
fn pending_transactions_keep_pending_rows_of_the_vault_in_order() {
    let rows = vec![
        tx(1, "1", "deposit", "pending", "1"),
        tx(2, "2", "deposit", "pending", "2"),
        tx(3, "1", "withdraw", "confirmed", "3"),
        tx(4, "1", "withdraw", "pending", "4"),
    ];
    let all = pending_transactions(rows, &None);
    assert_eq!(all.iter().map(|t| t.id).collect::<Vec<_>>(), vec![1, 2, 4]);
    let rows = vec![
        tx(1, "1", "deposit", "pending", "1"),
        tx(2, "2", "deposit", "pending", "2"),
        tx(4, "1", "withdraw", "pending", "4"),
    ];
    let in_one = pending_transactions(rows, &Some("1".to_string()));
    assert_eq!(in_one.iter().map(|t| t.id).collect::<Vec<_>>(), vec![1, 4]);
}

#[test]
fn total_pending_sums_amount_texts_reading_bad_ones_as_zero() {
    let amounts = vec!["1.5".to_string(), "oops".to_string(), "2".to_string()];
    assert_eq!(decimal(&total_pending(&amounts)), Decimal::from_str_exact("3.5").unwrap());
    assert!(total_pending(&vec![]).is_zero());
}

#[test]
fn try_total_pending_is_none_where_the_sum_overflows() {
    let max = Decimal::MAX.to_string();
    assert!(try_total_pending(&vec![max.clone(), max]).is_none());
    let t = try_total_pending(&vec!["4".to_string()]).unwrap();
    assert_eq!(decimal(&t), Decimal::from(4));
}

// ---------------------------------------------------------------------------
// Position summary and KPIs

#[test]
fn position_figures_value_deposits_and_earnings() {
    let f = position_figures(dec("10"), dec("1.2"), Some(dec("11")));
    assert_eq!(decimal(&f.position_value), Decimal::from(12));
    assert_eq!(decimal(&f.total_deposits), Decimal::from(11));
    assert_eq!(decimal(&f.all_time_earned), Decimal::from(1));
    let f = position_figures(dec("10"), dec("1.2"), None);
    assert!(f.total_deposits.is_zero());
    assert_eq!(decimal(&f.all_time_earned), Decimal::from(12));
}

#[test]
fn position_earnings_saturate() {
    let min = Dec::new(-Dec::max_value().mantissa(), 0).unwrap();
    let f = position_figures(Dec::max_value(), dec("1"), Some(min));
    assert_eq!(decimal(&f.all_time_earned), Decimal::MAX);
}

#[test]
fn try_position_figures_is_none_where_the_product_overflows() {
    assert!(try_position_figures(Dec::max_value(), dec("2"), None).is_none());
    let f = try_position_figures(dec("2"), dec("3"), None).unwrap();
    assert_eq!(decimal(&f.position_value), Decimal::from(6));
}

#[test]
fn current_pnl_replaces_cached_pnl_only() {
    let cached = UserKpi {
        id: 5,
        user_address: "0xab".to_string(),
        vault_id: "1".to_string(),
        all_time_pnl: Some(dec("1")),
        unrealized_pnl: None,
        realized_pnl: None,
        max_drawdown_pct: Some(dec("12")),
        sharpe_ratio: Some(dec("0.7")),
        total_deposits: None,
        total_withdrawals: None,
        total_fees_paid: None,
        calculated_at: Some(ts(3)),
        share_price_used: None,
        created_at: None,
        updated_at: None,
        sortino_ratio: None,
        share_balance: None,
    };
    let pnl = KpiCalculationResult {
        all_time_pnl: dec("8"),
        unrealized_pnl: dec("5"),
        realized_pnl: dec("3"),
    };
    let k = with_current_pnl(cached, &pnl);
    assert_eq!(decimal(&k.all_time_pnl.unwrap()), Decimal::from(8));
    assert_eq!(decimal(&k.unrealized_pnl.unwrap()), Decimal::from(5));
    assert_eq!(decimal(&k.realized_pnl.unwrap()), Decimal::from(3));
    assert_eq!(decimal(&k.max_drawdown_pct.unwrap()), Decimal::from(12));
    assert_eq!(k.id, 5);
    assert_eq!(k.calculated_at, Some(ts(3)));
}

// ---------------------------------------------------------------------------
// Alternative vault API

fn entry(timestamp: i64, tvl: Option<&str>) -> AlternativeHistoryEntry {
    AlternativeHistoryEntry {
        timestamp,
        tvl: tvl.map(|s| s.to_string()),
        tvl_usd: None,
        apr: None,
    }
}

#[test]
fn tvl_timeseries_takes_each_report() {
    let history = vec![entry(0, Some("5")), entry(86400, None)];
    let r = alternative_timeseries(&history, "TVL", "7d");
    assert_eq!(r.metric, "TVL");
    assert_eq!(r.timeframe, "7d");
    let points: Vec<(String, String)> = r.points.into_iter().map(|p| (p.t, p.v)).collect();
    assert_eq!(
        points,
        vec![
            ("1970-01-01T00:00:00+00:00".to_string(), "5".to_string()),
            ("1970-01-02T00:00:00+00:00".to_string(), "0".to_string()),
        ]
    );
}

#[test]
fn pnl_timeseries_is_empty_and_others_are_zero() {
    let history = vec![entry(0, Some("5")), entry(60, Some("6"))];
    assert!(alternative_timeseries(&history, "pnl", "all").points.is_empty());
    let r = alternative_timeseries(&history, "apr", "all");
    assert_eq!(r.points.len(), 2);
    assert!(r.points.iter().all(|p| p.v == "0"));
    assert_eq!(r.points[1].t, "1970-01-01T00:01:00+00:00");
}

#[test]
fn timeseries_skips_reports_with_unwritable_time() {
    let history = vec![entry(i64::MAX, Some("5")), entry(0, Some("6"))];
    let r = alternative_timeseries(&history, "tvl", "all");
    assert_eq!(r.points.len(), 1);
    assert_eq!(r.points[0].v, "6");
}

#[test]
fn vault_is_found_by_address_ignoring_case() {
    let mut a = alternative(Some("1"), None);
    a.vault = "0xAAA".to_string();
    let mut b = alternative(Some("2"), None);
    b.vault = "0xBbB".to_string();
    let mut c = alternative(Some("3"), None);
    c.vault = "0xbbb".to_string();
    let found = find_vault_by_address(vec![a, b, c], "0XBBB").unwrap();
    assert_eq!(found.tvl.as_deref(), Some("2"));
    let none = find_vault_by_address(vec![alternative(None, None)], "0xother");
    assert!(none.is_none());
}

#[test]
fn position_summary_writes_each_number() {
    let position = UserPosition {
        id: 1,
        user_address: "0xab".to_string(),
        vault_id: "1".to_string(),
        share_balance: dec("10"),
        cost_basis: dec("9"),
        first_deposit_at: Some(ts(7)),
        last_activity_at: None,
        created_at: None,
        updated_at: None,
    };
    let figures = position_figures(dec("10"), dec("1.20"), Some(dec("11")));
    let s = position_summary("1".to_string(), ts(99), &position, dec("1.20"), &figures);
    assert_eq!(s.vault_id, "1");
    assert_eq!(s.as_of, ts(99));
    assert_eq!(s.position_value_usd, "12.00");
    assert_eq!(s.share_balance, "10");
    assert_eq!(s.share_price, "1.20");
    assert_eq!(s.first_deposit_at, Some(ts(7)));
    assert_eq!(s.total_deposits, "11");
    assert_eq!(s.all_time_earned, "1.00");
}

#[test]
fn historical_performance_writes_each_value() {
    let points = vec![(ts(1), dec("1.5")), (ts(2), dec("-3"))];
    let h = historical_user_performance(PerformanceMetric::RealizedPnl, Timeframe::ThirtyDays, &points);
    assert_eq!(h.metric, PerformanceMetric::RealizedPnl);
    assert_eq!(h.timeframe, Timeframe::ThirtyDays);
    assert_eq!(h.points.len(), 2);
    assert_eq!(h.points[0].t, ts(1));
    assert_eq!(h.points[0].v, "1.5");
    assert_eq!(h.points[1].v, "-3");
}

fn report(timestamp: i64, apr: &str, tvl_usd: Option<&str>) -> AlternativeHistoryEntry {
    AlternativeHistoryEntry {
        timestamp,
        tvl: Some(format!("tvl{timestamp}")),
        tvl_usd: tvl_usd.map(|s| s.to_string()),
        apr: Some(apr.to_string()),
    }
}

#[test]
fn latest_two_reports_follow_a_stable_sort_by_time() {
    assert_eq!(latest_two_reports(&vec![]), None);
    assert_eq!(latest_two_reports(&vec![report(5, "a", None)]), Some((0, None)));
    let h = vec![
        report(5, "a", None),
        report(9, "b", None),
        report(7, "c", None),
        report(9, "d", None),
    ];
    assert_eq!(latest_two_reports(&h), Some((1, Some(3))));
    let h = vec![report(5, "a", None), report(9, "b", None), report(7, "c", None)];
    assert_eq!(latest_two_reports(&h), Some((1, Some(2))));
}

#[test]
fn nav_latest_fields_of_the_latest_two_reports() {
    assert!(nav_latest_fields(&vec![], "now").is_none());
    let h = vec![report(0, "4", Some("100")), report(60, "5", None)];
    let f = nav_latest_fields(&h, "now").unwrap();
    assert_eq!(f.date, "1970-01-01T00:01:00+00:00");
    assert_eq!(f.aum, "tvl60");
    assert_eq!(f.current_apr.as_deref(), Some("5"));
    assert_eq!(f.previous_apr.as_deref(), Some("4"));
    assert_eq!(f.current_tvl_usd, None);
    assert_eq!(f.previous_tvl_usd.as_deref(), Some("100"));
    let single = vec![report(i64::MAX, "1", Some("7"))];
    let f = nav_latest_fields(&single, "now").unwrap();
    assert_eq!(f.date, "now");
    assert_eq!(f.aum, "7");
    assert_eq!(f.previous_apr, None);
}

#[test]
fn kpis_at_a_price_text() {
    let r = pragma::handlers::user_kpis_from_price_text(dec("10"), "2", Ok((dec("15"), dec("3"))))
        .unwrap()
        .unwrap();
    assert_eq!(decimal(&r.all_time_pnl), Decimal::from(8));
    match pragma::handlers::user_kpis_from_price_text(dec("10"), "two", Ok((dec("15"), dec("3")))) {
        Some(Err(ApiError::InternalServerError)) => {}
        _ => panic!("expected an internal error"),
    }
    match pragma::handlers::user_kpis_from_price_text(dec("10"), "0", Ok((dec("15"), dec("3")))) {
        Some(Err(ApiError::InternalServerError)) => {}
        _ => panic!("expected an internal error"),
    }
    assert!(pragma::handlers::user_kpis_from_price_text(Dec::max_value(), "2", Ok((dec("0"), dec("0")))).is_none());
}

#[test]
fn position_figures_at_a_price_text() {
    let (price, f) = pragma::handlers::position_figures_from_price_text(dec("10"), "1.2", Some(dec("11")))
        .unwrap()
        .unwrap();
    assert_eq!(decimal(&price), Decimal::from_str_exact("1.2").unwrap());
    assert_eq!(decimal(&f.all_time_earned), Decimal::from(1));
    match pragma::handlers::position_figures_from_price_text(dec("10"), "", None) {
        Some(Err(ApiError::InternalServerError)) => {}
        _ => panic!("expected an internal error"),
    }
    assert!(pragma::handlers::position_figures_from_price_text(Dec::max_value(), "2", None).is_none());
}
