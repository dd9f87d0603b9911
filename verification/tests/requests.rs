use pragma::bigdec::BigDec;
use pragma::deposit::{
    check_deposit, check_deposit_sender, deposit_submission_outcome, normalized_user_address,
    pending_deposit_request, VaultDepositStatus,
};
use pragma::numtext::{i32_to_text, parse_i32};
use pragma::query::defaults::{apr_basis, currency, timeframe};
use pragma::query::vault_kpis::default_timeframe as default_kpis_timeframe;
use pragma::query::{
    check_apr_basis, check_composition_series_query, check_currency, check_group_by,
    check_metric, check_timeframe, check_timeseries_query, default_composition_group_by,
    default_currency, default_timeframe, CompositionSeriesQuery, TimeseriesQuery,
};
use pragma::response::ApiError;
use pragma::text::{eq_ignore_ascii_case_left, str_eq};
use pragma::time::Timestamp;
use pragma::types::{
    DepositRequestStatus, DisplayCurrency, PerformanceMetric, Timeframe, TransactionStatus,
    TransactionType,
};

fn bad_request(r: Result<(), ApiError>) -> String {
    match r {
        Err(ApiError::BadRequest(m)) => m,
        other => panic!("expected a bad request, got {other:?}"),
    }
}

fn big(n: u32) -> BigDec {
    BigDec::from_parts(false, vec![n], 0)
}

// ---------------------------------------------------------------------------
// Texts and numbers

#[test]
fn parse_i32_reads_as_str_parse_does() {
    for s in ["0", "42", "-42", "+7", "007", "2147483647", "-2147483648"] {
        assert_eq!(parse_i32(s), s.parse::<i32>().ok(), "{s}");
    }
    for s in ["", "-", "+", "2147483648", "-2147483649", "1a", " 1", "1 ", "--1", "٣"] {
        assert_eq!(parse_i32(s), None, "{s}");
    }
}

#[test]
fn i32_text_reads_back() {
    for n in [0, 1, -1, 10, 305, i32::MAX, i32::MIN] {
        let t = i32_to_text(n);
        assert_eq!(t, n.to_string());
        assert_eq!(parse_i32(&t), Some(n));
    }
}

#[test]
fn text_comparisons() {
    assert!(str_eq("abc", "abc"));
    assert!(!str_eq("abc", "abd"));
    assert!(!str_eq("abc", "ab"));
    assert!(eq_ignore_ascii_case_left("StarkNet", "starknet"));
    assert!(!eq_ignore_ascii_case_left("starknet", "StarkNet"));
    assert!(!eq_ignore_ascii_case_left("ÉTHER", "éther"));
}

#[test]
fn enum_texts() {
    assert_eq!(PerformanceMetric::AllTimePnl.as_str(), "all_time_pnl");
    assert_eq!(PerformanceMetric::UnrealizedPnl.as_str(), "unrealized_pnl");
    assert_eq!(PerformanceMetric::RealizedPnl.as_str(), "realized_pnl");
    assert_eq!(TransactionType::Deposit.as_str(), "deposit");
    assert_eq!(TransactionType::Withdraw.as_str(), "withdraw");
    assert_eq!(TransactionType::Transfer.as_str(), "transfer");
    assert_eq!(TransactionType::Claim.as_str(), "claim");
    assert_eq!(TransactionType::parse("claim"), Some(TransactionType::Claim));
    assert_eq!(TransactionType::parse("redeem"), None);
    assert_eq!(TransactionStatus::Pending.as_str(), "pending");
    assert_eq!(TransactionStatus::Confirmed.as_str(), "confirmed");
    assert_eq!(TransactionStatus::Failed.as_str(), "failed");
    assert_eq!(TransactionStatus::Cancelled.as_str(), "cancelled");
    assert_eq!(TransactionStatus::parse("failed"), Some(TransactionStatus::Failed));
    assert_eq!(TransactionStatus::parse("FAILED"), None);
    assert_eq!(DepositRequestStatus::Pending.as_str(), "pending");
    assert_eq!(DepositRequestStatus::Submitted.as_str(), "submitted");
    assert_eq!(DepositRequestStatus::Failed.as_str(), "failed");
}

#[test]
fn timeframes() {
    assert_eq!(Timeframe::SevenDays.as_str(), "7d");
    assert_eq!(Timeframe::ThirtyDays.as_str(), "30d");
    assert_eq!(Timeframe::OneYear.as_str(), "1y");
    assert_eq!(Timeframe::All.as_str(), "all");
    assert_eq!(Timeframe::SevenDays.to_days(), Some(7));
    assert_eq!(Timeframe::ThirtyDays.to_days(), Some(30));
    assert_eq!(Timeframe::OneYear.to_days(), Some(365));
    assert_eq!(Timeframe::All.to_days(), None);
    for t in [Timeframe::SevenDays, Timeframe::ThirtyDays, Timeframe::OneYear, Timeframe::All] {
        assert_eq!(Timeframe::from_query(t.as_str()), t);
    }
    assert_eq!(Timeframe::from_query("90d"), Timeframe::All);
}

// ---------------------------------------------------------------------------
// Query parameters

#[test]
fn query_defaults() {
    assert_eq!(timeframe(), "all");
    assert_eq!(currency(), "USD");
    assert_eq!(apr_basis(), "nominal");
    assert_eq!(default_composition_group_by(), "platform");
    assert_eq!(default_kpis_timeframe(), "all");
    assert_eq!(default_timeframe(), Timeframe::All);
    assert_eq!(default_currency(), DisplayCurrency::USD);
}

#[test]
fn single_parameter_checks() {
    for t in ["7d", "30d", "1y", "all"] {
        assert!(check_timeframe(t).is_ok());
    }
    assert_eq!(bad_request(check_timeframe("1d")), "timeframe must be one of: 7d, 30d, 1y, all");
    assert!(check_apr_basis("inflation_adjusted").is_ok());
    assert_eq!(
        bad_request(check_apr_basis("real")),
        "apr_basis must be either 'nominal' or 'inflation_adjusted'"
    );
    assert!(check_group_by("asset").is_ok());
    assert_eq!(
        bad_request(check_group_by("chain")),
        "group_by must be either 'platform' or 'asset'"
    );
    assert!(check_metric("pnl").is_ok());
    assert_eq!(bad_request(check_metric("TVL")), "metric must be either 'tvl' or 'pnl'");
    assert!(check_currency("USDC").is_ok());
    assert_eq!(bad_request(check_currency("usd")), "currency must be either 'USD' or 'USDC'");
}

fn timeseries(metric: &str, timeframe: &str, currency: &str) -> TimeseriesQuery {
    TimeseriesQuery {
        metric: metric.to_string(),
        timeframe: timeframe.to_string(),
        currency: currency.to_string(),
    }
}

#[test]
fn timeseries_query_answers_the_first_failing_check() {
    assert!(check_timeseries_query(&timeseries("tvl", "30d", "USD")).is_ok());
    assert_eq!(
        bad_request(check_timeseries_query(&timeseries("x", "x", "x"))),
        "metric must be either 'tvl' or 'pnl'"
    );
    assert_eq!(
        bad_request(check_timeseries_query(&timeseries("tvl", "x", "x"))),
        "timeframe must be one of: 7d, 30d, 1y, all"
    );
    assert_eq!(
        bad_request(check_timeseries_query(&timeseries("tvl", "7d", "x"))),
        "currency must be either 'USD' or 'USDC'"
    );
}

#[test]
fn composition_series_query_checks_timeframe_then_grouping() {
    let q = |t: &str, g: &str| CompositionSeriesQuery {
        timeframe: t.to_string(),
        group_by: g.to_string(),
    };
    assert!(check_composition_series_query(&q("1y", "platform")).is_ok());
    assert_eq!(
        bad_request(check_composition_series_query(&q("x", "x"))),
        "timeframe must be one of: 7d, 30d, 1y, all"
    );
    assert_eq!(
        bad_request(check_composition_series_query(&q("all", "x"))),
        "group_by must be either 'platform' or 'asset'"
    );
}

// ---------------------------------------------------------------------------
// Deposits

fn deposit_message(r: Result<BigDec, ApiError>) -> String {
    match r {
        Err(ApiError::BadRequest(m)) => m,
        Err(other) => panic!("expected a bad request, got {other:?}"),
        Ok(_) => panic!("expected a bad request"),
    }
}

#[test]
fn deposit_is_accepted_within_limits() {
    let a = check_deposit("Starknet", Some(false), "12.5", Some(&big(10)), Some(&big(20))).unwrap();
    assert!(!a.is_negative());
    assert_eq!(a.limbs(), &vec![125]);
    assert_eq!(a.scale(), 1);
    assert!(check_deposit("starknet", None, "1", None, None).is_ok());
}

#[test]
fn deposit_only_on_starknet() {
    assert_eq!(
        deposit_message(check_deposit("ethereum", None, "1", None, None)),
        "Deposits are only supported for Starknet vaults"
    );
}

#[test]
fn deposit_refused_while_paused() {
    assert_eq!(
        deposit_message(check_deposit("starknet", Some(true), "1", None, None)),
        "Deposits are currently paused for this vault"
    );
}

#[test]
fn deposit_amount_must_read_and_be_positive() {
    assert_eq!(
        deposit_message(check_deposit("starknet", None, "ten", None, None)),
        "Invalid amount format"
    );
    assert_eq!(
        deposit_message(check_deposit("starknet", None, "0", None, None)),
        "Deposit amount must be greater than zero"
    );
    assert_eq!(
        deposit_message(check_deposit("starknet", None, "-3", None, None)),
        "Deposit amount must be greater than zero"
    );
}

#[test]
fn deposit_amount_within_thresholds() {
    assert_eq!(
        deposit_message(check_deposit("starknet", None, "5", Some(&big(10)), None)),
        "Deposit amount below minimum threshold (10)"
    );
    assert_eq!(
        deposit_message(check_deposit("starknet", None, "25", None, Some(&big(20)))),
        "Deposit amount exceeds maximum threshold (20)"
    );
    assert!(check_deposit("starknet", None, "10", Some(&big(10)), Some(&big(10))).is_ok());
}

fn felt_bytes(hex: &str) -> [u8; 32] {
    starknet::core::types::Felt::from_hex(hex).unwrap().to_bytes_be()
}

#[test]
fn deposit_sender_must_be_the_user() {
    let sender = felt_bytes("0x0123abc");
    assert!(check_deposit_sender("0x123ABC", &sender).is_ok());
    match check_deposit_sender("0x123abd", &sender) {
        Err(ApiError::BadRequest(m)) => {
            assert_eq!(m, "Transaction sender does not match user address")
        }
        other => panic!("unexpected {other:?}"),
    }
    match check_deposit_sender("not hex", &sender) {
        Err(ApiError::BadRequest(m)) => assert_eq!(m, "Invalid user address"),
        other => panic!("unexpected {other:?}"),
    }
}

#[test]
fn deposit_user_address_is_stored_lowercase() {
    assert_eq!(normalized_user_address("0xABcd"), "0xabcd");
}

#[test]
fn submitted_deposit_is_recorded_with_its_hash() {
    let now = Timestamp { secs: 100, nanos: 5 };
    let (update, answer) = deposit_submission_outcome(
        "req-1".to_string(),
        Some("REF".to_string()),
        Ok("0xhash".to_string()),
        now,
    );
    assert_eq!(update.tx_hash.as_deref(), Some("0xhash"));
    assert_eq!(update.status, "submitted");
    assert_eq!(update.error_code, None);
    assert_eq!(update.updated_at, Some(now));
    let resp = answer.unwrap();
    assert_eq!(resp.request_id, "req-1");
    assert_eq!(resp.status, VaultDepositStatus::Submitted);
    assert_eq!(resp.tx_hash.as_deref(), Some("0xhash"));
    assert_eq!(resp.referral_code.as_deref(), Some("REF"));
}

#[test]
fn failed_submission_is_recorded_and_answered_unavailable() {
    let now = Timestamp { secs: 100, nanos: 0 };
    let (update, answer) =
        deposit_submission_outcome("req-2".to_string(), None, Err("rpc down".to_string()), now);
    assert_eq!(update.tx_hash, None);
    assert_eq!(update.status, "failed");
    assert_eq!(update.error_code.as_deref(), Some("provider_error"));
    assert_eq!(update.error_message.as_deref(), Some("rpc down"));
    match answer {
        Err(ApiError::ServiceUnavailable(m)) => {
            assert_eq!(m, "Failed to submit transaction (request_id: req-2)")
        }
        _ => panic!("expected service unavailable"),
    }
}

#[test]
fn accepted_deposit_is_stored_pending() {
    let r = pending_deposit_request(
        "req-3".to_string(),
        "1".to_string(),
        "0xAB",
        big(7),
        None,
        "{}".to_string(),
    );
    assert_eq!(r.id, "req-3");
    assert_eq!(r.user_address, "0xab");
    assert_eq!(r.status, "pending");
    assert_eq!(r.tx_hash, None);
    assert_eq!(r.amount.limbs(), &vec![7]);
}

fn invoke_json(sender: &str) -> String {
    let bounds = r#"{"max_amount":"0x0","max_price_per_unit":"0x0"}"#;
    format!(
        r#"{{"type":"INVOKE","sender_address":"{sender}","calldata":[],"version":"0x3","signature":[],"nonce":"0x0","resource_bounds":{{"l1_gas":{bounds},"l1_data_gas":{bounds},"l2_gas":{bounds}}},"tip":"0x0","paymaster_data":[],"account_deployment_data":[],"nonce_data_availability_mode":"L1","fee_data_availability_mode":"L1"}}"#
    )
}

fn request_message(r: Result<BigDec, ApiError>) -> String {
    match r {
        Err(ApiError::BadRequest(m)) => m,
        Err(other) => panic!("expected a bad request, got {other:?}"),
        Ok(_) => panic!("expected a bad request"),
    }
}

#[test]
fn deposit_request_checks_payload_then_sender() {
    let ok = pragma::deposit::check_deposit_request(
        "starknet", None, "3", None, None, "0x123ABC", &invoke_json("0x123abc"),
    )
    .unwrap();
    assert_eq!(ok.limbs(), &vec![3]);
    assert_eq!(
        request_message(pragma::deposit::check_deposit_request(
            "starknet", None, "3", None, None, "0x123abc", r#"{"type":"DECLARE"}"#,
        )),
        "Invalid transaction payload"
    );
    assert_eq!(
        request_message(pragma::deposit::check_deposit_request(
            "starknet", None, "3", None, None, "0x999", &invoke_json("0x123abc"),
        )),
        "Transaction sender does not match user address"
    );
    assert_eq!(
        request_message(pragma::deposit::check_deposit_request(
            "starknet", None, "3", None, None, "zz", &invoke_json("0x123abc"),
        )),
        "Invalid user address"
    );
    assert_eq!(
        request_message(pragma::deposit::check_deposit_request(
            "starknet", Some(true), "3", None, None, "0x123abc", "not json",
        )),
        "Deposits are currently paused for this vault"
    );
}
