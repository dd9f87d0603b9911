//! The records the vault service keeps: user positions, user transactions,
//! KPI snapshots and indexer states, holding plain values.
use crate::decimal::Dec;
use crate::time::Timestamp;
use vstd::prelude::*;

verus! {

/// A user of the vault service.
pub struct User {
    pub address: String,
    pub chain: String,
    pub created_at: Option<Timestamp>,
    pub updated_at: Option<Timestamp>,
}

/// A user's position in a vault.
pub struct UserPosition {
    pub id: i32,
    pub user_address: String,
    pub vault_id: String,
    pub share_balance: Dec,
    pub cost_basis: Dec,
    pub first_deposit_at: Option<Timestamp>,
    pub last_activity_at: Option<Timestamp>,
    pub created_at: Option<Timestamp>,
    pub updated_at: Option<Timestamp>,
}

/// A position to insert.
pub struct NewUserPosition {
    pub user_address: String,
    pub vault_id: String,
    pub share_balance: Dec,
    pub cost_basis: Dec,
    pub first_deposit_at: Option<Timestamp>,
    pub last_activity_at: Option<Timestamp>,
}

/// Changes to a position: each field that is `Some` is written, the others
/// are left as they are.
pub struct UserPositionUpdate {
    pub share_balance: Option<Dec>,
    pub cost_basis: Option<Dec>,
    pub last_activity_at: Option<Timestamp>,
    pub updated_at: Option<Timestamp>,
}

/// A user transaction as stored.
pub struct UserTransaction {
    pub id: i32,
    pub tx_hash: String,
    pub block_number: i64,
    pub block_timestamp: Timestamp,
    pub user_address: String,
    pub vault_id: String,
    pub type_: String,
    pub status: String,
    pub amount: Dec,
    pub shares_amount: Option<Dec>,
    pub share_price: Option<Dec>,
    pub gas_fee: Option<Dec>,
    /// The JSON object of metadata, as its `(key, text value)` entries.
    pub metadata: Option<Vec<(String, String)>>,
    pub created_at: Option<Timestamp>,
    pub updated_at: Option<Timestamp>,
}

/// A user transaction to insert.
pub struct NewUserTransaction {
    pub tx_hash: String,
    pub block_number: i64,
    pub block_timestamp: Timestamp,
    pub user_address: String,
    pub vault_id: String,
    pub type_: String,
    pub status: String,
    pub amount: Dec,
    pub shares_amount: Option<Dec>,
    pub share_price: Option<Dec>,
    pub gas_fee: Option<Dec>,
    /// The JSON object of metadata, as its `(key, text value)` entries.
    pub metadata: Option<Vec<(String, String)>>,
}

/// A user's KPI snapshot for a vault.
pub struct UserKpi {
    pub id: i32,
    pub user_address: String,
    pub vault_id: String,
    pub all_time_pnl: Option<Dec>,
    pub unrealized_pnl: Option<Dec>,
    pub realized_pnl: Option<Dec>,
    pub max_drawdown_pct: Option<Dec>,
    pub sharpe_ratio: Option<Dec>,
    pub total_deposits: Option<Dec>,
    pub total_withdrawals: Option<Dec>,
    pub total_fees_paid: Option<Dec>,
    pub calculated_at: Option<Timestamp>,
    pub share_price_used: Option<Dec>,
    pub created_at: Option<Timestamp>,
    pub updated_at: Option<Timestamp>,
    pub sortino_ratio: Option<Dec>,
    pub share_balance: Option<Dec>,
}

/// A KPI snapshot to insert, or to write over the user's snapshot for the
/// vault when there is one.
pub struct NewUserKpi {
    pub user_address: String,
    pub vault_id: String,
    pub all_time_pnl: Option<Dec>,
    pub unrealized_pnl: Option<Dec>,
    pub realized_pnl: Option<Dec>,
    pub max_drawdown_pct: Option<Dec>,
    pub sharpe_ratio: Option<Dec>,
    pub sortino_ratio: Option<Dec>,
    pub total_deposits: Option<Dec>,
    pub total_withdrawals: Option<Dec>,
    pub total_fees_paid: Option<Dec>,
    pub calculated_at: Option<Timestamp>,
    pub share_price_used: Option<Dec>,
    pub share_balance: Option<Dec>,
}

/// The KPI figures computed for a user in a vault.
pub struct UserKpiUpdate {
    pub all_time_pnl: Option<Dec>,
    pub unrealized_pnl: Option<Dec>,
    pub realized_pnl: Option<Dec>,
    pub max_drawdown_pct: Option<Dec>,
    pub sharpe_ratio: Option<Dec>,
    pub sortino_ratio: Option<Dec>,
    pub total_deposits: Option<Dec>,
    pub total_withdrawals: Option<Dec>,
    pub total_fees_paid: Option<Dec>,
    pub calculated_at: Option<Timestamp>,
    pub share_price_used: Option<Dec>,
    pub share_balance: Option<Dec>,
    pub updated_at: Option<Timestamp>,
}

/// The snapshot an upsert of `update` writes for a user in a vault: every
/// figure of the update (the update time is set by the write itself).
pub fn new_user_kpi(user_address: &str, vault_id: &str, update: &UserKpiUpdate) -> (r: NewUserKpi)
    ensures
        r.user_address@ == user_address@,
        r.vault_id@ == vault_id@,
        r.all_time_pnl == update.all_time_pnl,
        r.unrealized_pnl == update.unrealized_pnl,
        r.realized_pnl == update.realized_pnl,
        r.max_drawdown_pct == update.max_drawdown_pct,
        r.sharpe_ratio == update.sharpe_ratio,
        r.sortino_ratio == update.sortino_ratio,
        r.total_deposits == update.total_deposits,
        r.total_withdrawals == update.total_withdrawals,
        r.total_fees_paid == update.total_fees_paid,
        r.calculated_at == update.calculated_at,
        r.share_price_used == update.share_price_used,
        r.share_balance == update.share_balance,
{
    NewUserKpi {
        user_address: user_address.to_owned(),
        vault_id: vault_id.to_owned(),
        all_time_pnl: update.all_time_pnl,
        unrealized_pnl: update.unrealized_pnl,
        realized_pnl: update.realized_pnl,
        max_drawdown_pct: update.max_drawdown_pct,
        sharpe_ratio: update.sharpe_ratio,
        sortino_ratio: update.sortino_ratio,
        total_deposits: update.total_deposits,
        total_withdrawals: update.total_withdrawals,
        total_fees_paid: update.total_fees_paid,
        calculated_at: update.calculated_at,
        share_price_used: update.share_price_used,
        share_balance: update.share_balance,
    }
}

/// The indexer state of a vault.
pub struct IndexerState {
    pub id: i32,
    pub vault_id: String,
    pub last_processed_block: i64,
    pub last_processed_timestamp: Option<Timestamp>,
    pub last_error: Option<String>,
    pub last_error_at: Option<Timestamp>,
    pub status: Option<String>,
    pub created_at: Option<Timestamp>,
    pub updated_at: Option<Timestamp>,
}

/// An indexer state to insert.
pub struct NewIndexerState {
    pub vault_id: String,
    pub last_processed_block: i64,
    pub last_processed_timestamp: Option<Timestamp>,
    pub last_error: Option<String>,
    pub last_error_at: Option<Timestamp>,
    pub status: Option<String>,
}

/// Changes to an indexer state: each field that is `Some` is written, the
/// others are left as they are.
pub struct IndexerStateUpdate {
    pub last_processed_block: Option<i64>,
    pub last_processed_timestamp: Option<Timestamp>,
    pub last_error: Option<String>,
    pub last_error_at: Option<Timestamp>,
    pub status: Option<String>,
    pub updated_at: Option<Timestamp>,
}

} // verus!
