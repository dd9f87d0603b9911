use pragma::decimal::Dec;
use pragma::indexer::{
    all_synced, deposit_position_change, deposit_transaction, redeem_position_update,
    redeem_transaction, resume_block, share_price_at, try_deposit_position_change,
    try_redeem_position_update, try_share_price_at, IndexerStateChange, PositionChange, VaultState,
};
use pragma::models::{IndexerState, IndexerStateUpdate, UserPosition};
use pragma::time::Timestamp;
use pragma::types::IndexerStatus;
use rust_decimal::Decimal;

fn dec(s: &str) -> Dec {
    let d: Decimal = s.parse().unwrap();
    Dec::new(d.mantissa(), d.scale()).unwrap()
}

fn decimal(d: &Dec) -> Decimal {
    Decimal::from_i128_with_scale(d.mantissa(), d.scale())
}

fn ts(secs: i64) -> Timestamp {
    Timestamp { secs, nanos: 0 }
}

fn state(status: Option<&str>, last_processed_block: i64) -> IndexerState {
    IndexerState {
        id: 7,
        vault_id: "1".to_string(),
        last_processed_block,
        last_processed_timestamp: Some(ts(10)),
        last_error: None,
        last_error_at: None,
        status: status.map(|s| s.to_string()),
        created_at: Some(ts(1)),
        updated_at: Some(ts(2)),
    }
}

/// Writes an update the way the database does: each field that is set replaces the stored one.
fn apply(st: &IndexerState, u: &IndexerStateUpdate) -> IndexerState {
    IndexerState {
        id: st.id,
        vault_id: st.vault_id.clone(),
        last_processed_block: u.last_processed_block.unwrap_or(st.last_processed_block),
        last_processed_timestamp: u.last_processed_timestamp.or(st.last_processed_timestamp),
        last_error: u.last_error.clone().or(st.last_error.clone()),
        last_error_at: u.last_error_at.or(st.last_error_at),
        status: u.status.clone().or(st.status.clone()),
        created_at: st.created_at,
        updated_at: u.updated_at.or(st.updated_at),
    }
}

fn position(balance: &str, cost: &str) -> UserPosition {
    UserPosition {
        id: 3,
        user_address: "0xuser".to_string(),
        vault_id: "1".to_string(),
        share_balance: dec(balance),
        cost_basis: dec(cost),
        first_deposit_at: Some(ts(1)),
        last_activity_at: Some(ts(2)),
        created_at: Some(ts(1)),
        updated_at: Some(ts(2)),
    }
}

// ---------------------------------------------------------------------------
// Indexer state

#[test]
fn indexer_status_texts() {
    assert_eq!(IndexerStatus::Active.as_str(), "active");
    assert_eq!(IndexerStatus::Paused.as_str(), "paused");
    assert_eq!(IndexerStatus::Error.as_str(), "error");
    assert_eq!(IndexerStatus::Synced.as_str(), "synced");
    assert_eq!(IndexerStatus::parse("synced"), Some(IndexerStatus::Synced));
    assert_eq!(IndexerStatus::parse("Synced"), None);
    assert_eq!(IndexerStatus::from("paused"), IndexerStatus::Paused);
}

#[test]
fn status_enum_reads_and_sets_the_status() {
    let mut st = state(Some("active"), 5);
    assert_eq!(st.status_enum(), Some(IndexerStatus::Active));
    assert!(!st.is_synced() && !st.is_error());
    st.set_status_enum(IndexerStatus::Error);
    assert_eq!(st.status.as_deref(), Some("error"));
    assert!(st.is_error());
    assert!(!st.is_running());
    let none = state(None, 5);
    assert_eq!(none.status_enum(), None);
    assert!(!none.is_running());
}

#[test]
fn is_running_means_active() {
    assert!(state(Some("active"), 1).is_running());
    assert!(!state(Some("synced"), 1).is_running());
}

#[test]
fn upsert_writes_block_status_and_clears_errors() {
    let u = IndexerState::upsert_update(42, Some(ts(9)), Some(IndexerStatus::Synced), ts(11));
    assert_eq!(u.last_processed_block, Some(42));
    assert_eq!(u.last_processed_timestamp, Some(ts(9)));
    assert_eq!(u.status.as_deref(), Some("synced"));
    assert_eq!(u.last_error, None);
    assert_eq!(u.updated_at, Some(ts(11)));
    let n = IndexerState::upsert_new("2".to_string(), 42, None, None);
    assert_eq!(n.vault_id, "2");
    assert_eq!(n.last_processed_block, 42);
    assert_eq!(n.status, None);
    assert_eq!(n.last_error, None);
}

#[test]
fn processed_block_keeps_synced_indexer_synced() {
    let st = state(Some("synced"), 5);
    let u = st.status_preserving_update(6, Some(ts(20)), ts(21));
    let after = apply(&st, &u);
    assert_eq!(after.status.as_deref(), Some("synced"));
    assert_eq!(after.last_processed_block, 6);
    assert_eq!(after.last_processed_timestamp, Some(ts(20)));
}

#[test]
fn processed_block_makes_other_indexers_active() {
    for status in [None, Some("active"), Some("paused"), Some("error")] {
        let st = state(status, 5);
        let u = st.status_preserving_update(6, None, ts(21));
        let after = apply(&st, &u);
        assert_eq!(after.status.as_deref(), Some("active"));
        assert_eq!(after.last_processed_block, 6);
    }
}

#[test]
fn recorded_error_leaves_the_indexer_in_error() {
    let st = state(Some("synced"), 5);
    let u = IndexerState::error_update("boom".to_string(), ts(30));
    let after = apply(&st, &u);
    assert!(after.is_error());
    assert_eq!(after.last_error.as_deref(), Some("boom"));
    assert_eq!(after.last_error_at, Some(ts(30)));
    assert_eq!(after.last_processed_block, 5);
}

#[test]
fn synced_update_marks_synced_only() {
    let st = state(Some("active"), 5);
    let after = apply(&st, &IndexerState::synced_update(ts(40)));
    assert!(after.is_synced());
    assert_eq!(after.last_processed_block, 5);
    assert_eq!(after.updated_at, Some(ts(40)));
}

#[test]
fn resume_block_of_new_vault_is_configured_block() {
    assert_eq!(resume_block(None, 1234), 1234);
}

#[test]
fn resume_block_after_error_retries_last_block() {
    let st = state(Some("error"), 99);
    assert_eq!(resume_block(Some(&st), 1), 99);
}

#[test]
fn resume_block_continues_after_last_block() {
    let st = state(Some("active"), 99);
    assert_eq!(resume_block(Some(&st), 1), 100);
    let st = state(None, 0);
    assert_eq!(resume_block(Some(&st), 1), 1);
}

#[test]
fn all_synced_needs_every_state_synced() {
    assert!(all_synced(&vec![]));
    assert!(all_synced(&vec![state(Some("synced"), 1), state(Some("synced"), 2)]));
    assert!(!all_synced(&vec![state(Some("synced"), 1), state(Some("active"), 2)]));
    assert!(!all_synced(&vec![state(None, 1)]));
}

// ---------------------------------------------------------------------------
// Deposits and redeem requests

#[test]
fn share_price_divides_assets_by_shares() {
    let p = share_price_at(dec("150"), dec("100")).unwrap();
    assert_eq!(decimal(&p), Decimal::from_str_exact("1.5").unwrap());
    assert!(share_price_at(dec("150"), dec("0")).is_none());
    assert!(share_price_at(dec("150"), dec("-1")).is_none());
}

#[test]
fn try_share_price_is_none_where_division_overflows() {
    assert!(try_share_price_at(Dec::max_value(), dec("0.1")).is_none());
    let p = try_share_price_at(dec("3"), dec("2")).unwrap().unwrap();
    assert_eq!(decimal(&p), Decimal::from_str_exact("1.5").unwrap());
}

#[test]
fn deposit_transaction_is_a_confirmed_deposit() {
    let t = deposit_transaction(
        "0xhash".to_string(),
        77,
        ts(5),
        "0xuser".to_string(),
        "1".to_string(),
        dec("150"),
        dec("100"),
        Some(dec("1.5")),
    );
    assert_eq!(t.tx_hash, "0xhash");
    assert_eq!(t.block_number, 77);
    assert_eq!(t.type_, "deposit");
    assert_eq!(t.status, "confirmed");
    assert_eq!(decimal(&t.amount), Decimal::from(150));
    assert_eq!(decimal(&t.shares_amount.unwrap()), Decimal::from(100));
    assert!(t.gas_fee.is_none());
    assert!(t.metadata.is_none());
}

#[test]
fn redeem_transaction_is_a_confirmed_withdraw_with_metadata() {
    let t = redeem_transaction(
        "0xhash".to_string(),
        78,
        ts(6),
        "0xuser".to_string(),
        "1".to_string(),
        dec("10"),
        dec("8"),
        None,
        "12".to_string(),
        "3".to_string(),
        "0xreceiver".to_string(),
    );
    assert_eq!(t.type_, "withdraw");
    assert_eq!(t.status, "confirmed");
    assert_eq!(
        t.metadata,
        Some(vec![
            ("redeem_id".to_string(), "12".to_string()),
            ("epoch".to_string(), "3".to_string()),
            ("receiver".to_string(), "0xreceiver".to_string()),
        ])
    );
}

#[test]
fn deposit_into_existing_position_adds_shares_and_cost() {
    let p = position("10", "20");
    let change = deposit_position_change(
        Some(&p),
        "0xuser".to_string(),
        "1".to_string(),
        dec("5"),
        dec("7.5"),
        ts(50),
        ts(51),
    );
    match change {
        PositionChange::Update(u) => {
            assert_eq!(decimal(&u.share_balance.unwrap()), Decimal::from(15));
            assert_eq!(decimal(&u.cost_basis.unwrap()), Decimal::from_str_exact("27.5").unwrap());
            assert_eq!(u.last_activity_at, Some(ts(50)));
            assert_eq!(u.updated_at, Some(ts(51)));
        }
        PositionChange::Create(_) => panic!("expected an update"),
    }
}

#[test]
fn first_deposit_creates_a_position() {
    let change = deposit_position_change(
        None,
        "0xuser".to_string(),
        "1".to_string(),
        dec("5"),
        dec("7.5"),
        ts(50),
        ts(51),
    );
    match change {
        PositionChange::Create(n) => {
            assert_eq!(n.user_address, "0xuser");
            assert_eq!(decimal(&n.share_balance), Decimal::from(5));
            assert_eq!(decimal(&n.cost_basis), Decimal::from_str_exact("7.5").unwrap());
            assert_eq!(n.first_deposit_at, Some(ts(50)));
            assert_eq!(n.last_activity_at, Some(ts(50)));
        }
        PositionChange::Update(_) => panic!("expected a new position"),
    }
}

#[test]
fn try_deposit_is_none_where_the_sum_overflows() {
    let mut p = position("1", "1");
    p.share_balance = Dec::max_value();
    let r = try_deposit_position_change(
        Some(&p),
        "0xuser".to_string(),
        "1".to_string(),
        dec("1"),
        dec("1"),
        ts(1),
        ts(1),
    );
    assert!(r.is_none());
}

#[test]
fn redeem_lowers_balance_but_not_below_zero() {
    let p = position("10", "20");
    let u = redeem_position_update(&p, dec("4"), ts(60), ts(61));
    assert_eq!(decimal(&u.share_balance.unwrap()), Decimal::from(6));
    assert!(u.cost_basis.is_none());
    assert_eq!(u.last_activity_at, Some(ts(60)));
    let u = redeem_position_update(&p, dec("12"), ts(60), ts(61));
    assert!(u.share_balance.unwrap().is_zero());
}

#[test]
fn try_redeem_is_none_where_the_difference_overflows() {
    let mut p = position("1", "1");
    p.share_balance = Dec::max_value();
    let minus_max = Dec::new(-Dec::max_value().mantissa(), 0).unwrap();
    assert!(try_redeem_position_update(&p, minus_max, ts(1), ts(1)).is_none());
    let u = try_redeem_position_update(&position("3", "1"), dec("1"), ts(1), ts(2)).unwrap();
    assert_eq!(decimal(&u.share_balance.unwrap()), Decimal::from(2));
}

#[test]
fn vault_state_resumes_and_records_blocks() {
    let mut vs = VaultState::new("1".to_string(), 500);
    assert_eq!(vs.current_block, 500);
    assert_eq!(vs.current_timestamp, None);
    vs.load_last_processed_block(None);
    assert_eq!(vs.current_block, 500);
    vs.load_last_processed_block(Some(&state(Some("synced"), 700)));
    assert_eq!(vs.current_block, 701);
    vs.load_last_processed_block(Some(&state(Some("error"), 650)));
    assert_eq!(vs.current_block, 650);
    vs.record_processed_block(651, ts(9));
    assert_eq!(vs.current_block, 651);
    assert_eq!(vs.current_timestamp, Some(ts(9)));
}

#[test]
fn indexer_state_is_initialized_active_at_the_current_block() {
    let vs = VaultState::new("4".to_string(), 42);
    match vs.initialize_indexer_state(true, ts(3)) {
        IndexerStateChange::Update(u) => {
            assert_eq!(u.last_processed_block, Some(42));
            assert_eq!(u.status.as_deref(), Some("active"));
            assert_eq!(u.last_processed_timestamp, None);
            assert_eq!(u.updated_at, Some(ts(3)));
        }
        IndexerStateChange::Create(_) => panic!("expected an update"),
    }
    match vs.initialize_indexer_state(false, ts(3)) {
        IndexerStateChange::Create(n) => {
            assert_eq!(n.vault_id, "4");
            assert_eq!(n.last_processed_block, 42);
            assert_eq!(n.status.as_deref(), Some("active"));
        }
        IndexerStateChange::Update(_) => panic!("expected a new state"),
    }
}

#[test]
fn indexer_resumes_after_what_it_recorded() {
    let st = state(Some("synced"), 5);
    let after_block = apply(&st, &st.status_preserving_update(6, Some(ts(20)), ts(21)));
    assert_eq!(resume_block(Some(&after_block), 1), 7);
    let after_error = apply(&after_block, &IndexerState::error_update("rpc".to_string(), ts(22)));
    assert_eq!(resume_block(Some(&after_error), 1), 6);
}

#[test]
fn replayed_deposit_writes_nothing() {
    let recorded = vec!["0xold".to_string()];
    let first = pragma::indexer::deposit_event_outcome(
        &recorded, "0xnew".to_string(), 9, ts(1), "0xuser".to_string(), "1".to_string(),
        dec("150"), dec("100"), None, ts(2),
    )
    .unwrap()
    .unwrap();
    assert_eq!(first.0.tx_hash, "0xnew");
    assert_eq!(decimal(&first.0.share_price.unwrap()), Decimal::from_str_exact("1.5").unwrap());
    assert!(matches!(first.1, PositionChange::Create(_)));
    let recorded = vec!["0xold".to_string(), first.0.tx_hash.clone()];
    let again = pragma::indexer::deposit_event_outcome(
        &recorded, "0xnew".to_string(), 9, ts(1), "0xuser".to_string(), "1".to_string(),
        dec("150"), dec("100"), None, ts(2),
    );
    assert!(matches!(again, Some(None)));
}

#[test]
fn replayed_redeem_writes_nothing() {
    let p = position("10", "20");
    let first = pragma::indexer::redeem_event_outcome(
        &vec![], "0xr".to_string(), 9, ts(1), "0xuser".to_string(), "1".to_string(),
        dec("8"), dec("4"), "1".to_string(), "2".to_string(), "0xrec".to_string(), Some(&p), ts(2),
    )
    .unwrap()
    .unwrap();
    assert_eq!(first.0.type_, "withdraw");
    assert_eq!(decimal(&first.1.unwrap().share_balance.unwrap()), Decimal::from(6));
    let none = pragma::indexer::redeem_event_outcome(
        &vec![], "0xr".to_string(), 9, ts(1), "0xuser".to_string(), "1".to_string(),
        dec("8"), dec("4"), "1".to_string(), "2".to_string(), "0xrec".to_string(), None, ts(2),
    )
    .unwrap()
    .unwrap();
    assert!(none.1.is_none());
    let again = pragma::indexer::redeem_event_outcome(
        &vec!["0xr".to_string()], "0xr".to_string(), 9, ts(1), "0xuser".to_string(),
        "1".to_string(), dec("8"), dec("4"), "1".to_string(), "2".to_string(),
        "0xrec".to_string(), Some(&p), ts(2),
    );
    assert!(matches!(again, Some(None)));
}
