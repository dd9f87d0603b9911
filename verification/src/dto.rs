//! The data the vault API answers with.
use crate::decimal::Dec;
use crate::time::Timestamp;
use crate::types::{
    DisplayCurrency, PerformanceMetric, Timeframe, TransactionStatus, TransactionType,
};
use std::collections::HashMap;
use vstd::prelude::*;

verus! {

/// A vault in the vault list.
pub struct VaultListItem {
    pub id: String,
    pub name: String,
    pub description: Option<String>,
    pub chain: String,
    pub symbol: String,
    pub tvl: String,
    pub apr: String,
    pub status: String,
    pub average_redeem_delay: Option<String>,
    pub last_reported: Option<String>,
}

/// The vault list.
pub struct VaultListResponse {
    pub items: Vec<VaultListItem>,
}

/// A vault's contract.
pub struct Contract {
    pub address: String,
}

/// Limits on deposits.
pub struct DepositConstraints {
    pub min_deposit: Option<String>,
    pub max_deposit: Option<String>,
    pub paused: Option<bool>,
}

/// A vault's icons.
pub struct Icons {
    pub light: Option<String>,
    pub dark: Option<String>,
}

/// A vault-level timeseries metric.
#[derive(Clone, Copy, Debug, PartialEq, Eq, Structural)]
pub enum TimeseriesMetric {
    Tvl,
    Pnl,
}

/// A timeseries period.
#[derive(Clone, Copy, Debug, PartialEq, Eq, Structural)]
pub enum TimeseriesTimeframe {
    D7,
    D30,
    Y1,
    All,
}

/// A timeseries currency.
#[derive(Clone, Copy, Debug, PartialEq, Eq, Structural)]
pub enum TimeseriesCurrency {
    Usd,
    Usdc,
}

/// A point of a vault timeseries: an RFC 3339 time and a value as text.
pub struct TimeseriesPoint {
    pub t: String,
    pub v: String,
}

/// A vault timeseries.
pub struct VaultTimeseriesResponse {
    pub metric: String,
    pub timeframe: String,
    pub points: Vec<TimeseriesPoint>,
}

/// A vault's liquidity.
pub struct VaultLiquidityResponse {
    pub as_of: Option<String>,
    pub is_liquid: bool,
    pub withdraw_capacity_usd_24h: String,
    pub deposit_capacity_usd_24h: String,
    pub policy_markdown: Option<String>,
}

/// A point of a slippage curve.
pub struct SlippagePoint {
    pub amount_usd: String,
    pub slippage_bps: u32,
}

/// A vault's slippage curve.
pub struct VaultSlippageCurveResponse {
    pub is_liquid: bool,
    pub points: Vec<SlippagePoint>,
}

/// A liquidity simulation request.
pub struct LiquiditySimulateRequest {
    pub amount: String,
}

/// Instant liquidity of a simulation.
pub struct InstantLiquidity {
    pub supported: bool,
    pub est_slippage_bps: u32,
    pub cap_remaining: String,
}

/// A scheduled withdrawal window.
pub struct ScheduledWindow {
    pub window: String,
    pub max_without_delay: Option<String>,
    pub expected_nav_date: String,
}

/// A liquidity simulation.
pub struct LiquiditySimulateResponse {
    pub amount: String,
    pub instant: Option<InstantLiquidity>,
    pub scheduled: Vec<ScheduledWindow>,
}

/// The basis of an APR.
#[derive(Clone, Copy, Debug, PartialEq, Eq, Structural)]
pub enum AprBasis {
    Nominal,
    InflationAdjusted,
}

/// A composition grouping.
#[derive(Clone, Copy, Debug, PartialEq, Eq, Structural)]
pub enum GroupBy {
    Platform,
    Asset,
}

/// A vault portfolio snapshot as an individual vault API returns it.
pub struct VaultPortfolioDTO {
    pub age_days: String,
    pub last_30d_apr: String,
    pub num_depositors: String,
    pub profit_factor: String,
    pub tvl_in_usd: String,
    pub total_exposure_in_usd: String,
    pub total_pnl: String,
    pub free_collateral: String,
    pub balances: HashMap<String, HashMap<String, String>>,
}

/// A user profile.
pub struct UserProfile {
    pub address: String,
    pub chain: String,
    pub display_currency: DisplayCurrency,
}

impl From<crate::models::User> for UserProfile {
    fn from(user: crate::models::User) -> (r: UserProfile) {
        UserProfile { address: user.address, chain: user.chain, display_currency: DisplayCurrency::USD }
    }
}

impl vstd::std_specs::convert::FromSpecImpl<crate::models::User> for UserProfile {
    open spec fn obeys_from_spec() -> bool {
        true
    }

    open spec fn from_spec(user: crate::models::User) -> UserProfile {
        UserProfile { address: user.address, chain: user.chain, display_currency: DisplayCurrency::USD }
    }
}

/// A user's position summary.
pub struct UserPositionSummary {
    pub vault_id: String,
    pub as_of: Timestamp,
    pub position_value_usd: String,
    pub share_balance: String,
    pub share_price: String,
    pub first_deposit_at: Option<Timestamp>,
    pub total_deposits: String,
    pub all_time_earned: String,
}

/// A user transaction as the API shows it.
pub struct UserTransaction {
    pub id: String,
    pub vault_id: String,
    pub transaction_type: TransactionType,
    pub status: TransactionStatus,
    pub amount: String,
    pub tx_hash: String,
    pub timestamp: Timestamp,
}

/// A page of a user's transaction history.
pub struct UserTransactionHistory {
    pub items: Vec<UserTransaction>,
    pub next_cursor: Option<String>,
}

/// A point of a user's historical performance.
pub struct HistoricalDataPoint {
    pub t: Timestamp,
    pub v: String,
}

/// A user's historical performance.
pub struct HistoricalUserPerformance {
    pub metric: PerformanceMetric,
    pub timeframe: Timeframe,
    pub points: Vec<HistoricalDataPoint>,
}

/// A pending redeem.
pub struct PendingRedeem {
    pub vault_id: String,
    pub amount: String,
    pub transaction_type: TransactionType,
    pub tx_hash: String,
    pub submitted_at: Timestamp,
}

/// A user's pending redeems.
pub struct PendingRedeemsResponse {
    pub address: String,
    pub as_of: Timestamp,
    pub pending_redeems: Vec<PendingRedeem>,
    pub total_pending: String,
}

/// A vault as the alternative vault API lists it.
pub struct AlternativeVaultDTO {
    pub vault: String,
    pub tvl: Option<String>,
    pub tvl_usd: Option<String>,
    pub share_price: Option<String>,
    pub apr: Option<String>,
    pub average_redeem_delay: Option<String>,
    pub last_reported: Option<String>,
}

/// A history report of the alternative vault API.
pub struct AlternativeHistoryEntry {
    pub timestamp: i64,
    pub tvl: Option<String>,
    pub tvl_usd: Option<String>,
    pub apr: Option<String>,
}

/// How much history to ask the alternative vault API for.
#[derive(Clone, Copy, Debug, PartialEq, Eq, Structural)]
pub struct HistoryParams {
    pub max_reports: u32,
    pub apr_calculation_delta: u32,
}

/// The figures of a user's position summary.
pub struct PositionFigures {
    pub position_value: Dec,
    pub total_deposits: Dec,
    pub all_time_earned: Dec,
}

} // verus!
