//! Query parameters of the vault API: the query types, their defaults, and
//! the checks a request's parameters must pass.
pub mod defaults;
pub mod vault_kpis;

use crate::response::{is_bad_request, ApiError};
use crate::text::str_eq;
use crate::types::{DisplayCurrency, PerformanceMetric, Timeframe};
use vstd::prelude::*;

verus! {

/// Query of endpoints that accept a timeframe.
pub struct TimeframeQuery {
    pub timeframe: String,
}

/// Query of the APR summary endpoint.
pub struct AprSummaryQuery {
    pub apr_basis: String,
}

/// Query of the APR series endpoint.
pub struct AprSeriesQuery {
    pub timeframe: String,
}

/// Query of the timeseries endpoint.
pub struct TimeseriesQuery {
    pub metric: String,
    pub timeframe: String,
    pub currency: String,
}

/// Query of the composition endpoint.
pub struct CompositionQuery {
    pub group_by: String,
}

/// Query of the composition series endpoint.
pub struct CompositionSeriesQuery {
    pub timeframe: String,
    pub group_by: String,
}

/// Query of the vault KPI endpoint.
pub struct KpisQuery {
    pub timeframe: String,
}

/// Query of a user's historical performance.
pub struct HistoricalQuery {
    pub metric: PerformanceMetric,
    pub timeframe: Timeframe,
    pub currency: DisplayCurrency,
}

/// Query of a user's pending assets.
pub struct PendingAssetsQuery {
    pub vault_id: Option<String>,
    pub asset_type: Option<String>,
}

/// Query of a user's pending redeems.
pub struct PendingRedeemsQuery {
    pub vault_id: Option<String>,
    pub asset_type: Option<String>,
}

/// Query of a user's transaction history.
pub struct TransactionQuery {
    pub transaction_type: Option<String>,
    pub limit: Option<i64>,
    pub cursor: Option<String>,
}

/// The default composition grouping: `platform`.
pub fn default_composition_group_by() -> (r: String)
    ensures
        r@ == "platform"@,
{
    "platform".to_owned()
}

/// The default timeframe of the historical performance query: all of history.
pub fn default_timeframe() -> (r: Timeframe)
    ensures
        r == Timeframe::All,
{
    Timeframe::All
}

/// The default display currency: USD.
pub fn default_currency() -> (r: DisplayCurrency)
    ensures
        r == DisplayCurrency::USD,
{
    DisplayCurrency::USD
}

/// The message for a timeframe the API does not accept.
pub open spec fn timeframe_msg() -> Seq<char> {
    "timeframe must be one of: 7d, 30d, 1y, all"@
}

/// The message for an APR basis the API does not accept.
pub open spec fn apr_basis_msg() -> Seq<char> {
    "apr_basis must be either 'nominal' or 'inflation_adjusted'"@
}

/// The message for a grouping the API does not accept.
pub open spec fn group_by_msg() -> Seq<char> {
    "group_by must be either 'platform' or 'asset'"@
}

/// The message for a metric the API does not accept.
pub open spec fn metric_msg() -> Seq<char> {
    "metric must be either 'tvl' or 'pnl'"@
}

/// The message for a currency the API does not accept.
pub open spec fn currency_msg() -> Seq<char> {
    "currency must be either 'USD' or 'USDC'"@
}

/// One of the timeframes the API accepts: `7d`, `30d`, `1y`, `all`.
pub open spec fn is_timeframe_param(s: Seq<char>) -> bool {
    s == "7d"@ || s == "30d"@ || s == "1y"@ || s == "all"@
}

/// One of the APR bases: `nominal`, `inflation_adjusted`.
pub open spec fn is_apr_basis_param(s: Seq<char>) -> bool {
    s == "nominal"@ || s == "inflation_adjusted"@
}

/// One of the groupings: `platform`, `asset`.
pub open spec fn is_group_by_param(s: Seq<char>) -> bool {
    s == "platform"@ || s == "asset"@
}

/// One of the vault metrics: `tvl`, `pnl`.
pub open spec fn is_metric_param(s: Seq<char>) -> bool {
    s == "tvl"@ || s == "pnl"@
}

/// One of the currencies: `USD`, `USDC`.
pub open spec fn is_currency_param(s: Seq<char>) -> bool {
    s == "USD"@ || s == "USDC"@
}

/// `r` is a bad request with the message `msg`.
pub open spec fn rejected(r: Result<(), ApiError>, msg: Seq<char>) -> bool {
    r matches Err(e) && is_bad_request(e, msg)
}

/// `Ok` when `ok` holds, else a bad request with the message `msg`.
pub open spec fn check_result(r: Result<(), ApiError>, ok: bool, msg: Seq<char>) -> bool {
    &&& r is Ok <==> ok
    &&& r matches Err(e) ==> is_bad_request(e, msg)
}

/// Checks a timeframe parameter.
pub fn check_timeframe(timeframe: &str) -> (r: Result<(), ApiError>)
    ensures
        check_result(r, is_timeframe_param(timeframe@), timeframe_msg()),
{
    if str_eq(timeframe, "7d") || str_eq(timeframe, "30d") || str_eq(timeframe, "1y") || str_eq(
        timeframe,
        "all",
    ) {
        Ok(())
    } else {
        Err(ApiError::bad_request("timeframe must be one of: 7d, 30d, 1y, all"))
    }
}

/// Checks an APR basis parameter.
pub fn check_apr_basis(apr_basis: &str) -> (r: Result<(), ApiError>)
    ensures
        check_result(r, is_apr_basis_param(apr_basis@), apr_basis_msg()),
{
    if str_eq(apr_basis, "nominal") || str_eq(apr_basis, "inflation_adjusted") {
        Ok(())
    } else {
        Err(ApiError::bad_request("apr_basis must be either 'nominal' or 'inflation_adjusted'"))
    }
}

/// Checks a grouping parameter.
pub fn check_group_by(group_by: &str) -> (r: Result<(), ApiError>)
    ensures
        check_result(r, is_group_by_param(group_by@), group_by_msg()),
{
    if str_eq(group_by, "platform") || str_eq(group_by, "asset") {
        Ok(())
    } else {
        Err(ApiError::bad_request("group_by must be either 'platform' or 'asset'"))
    }
}

/// Checks a vault metric parameter.
pub fn check_metric(metric: &str) -> (r: Result<(), ApiError>)
    ensures
        check_result(r, is_metric_param(metric@), metric_msg()),
{
    if str_eq(metric, "tvl") || str_eq(metric, "pnl") {
        Ok(())
    } else {
        Err(ApiError::bad_request("metric must be either 'tvl' or 'pnl'"))
    }
}

/// Checks a currency parameter.
pub fn check_currency(currency: &str) -> (r: Result<(), ApiError>)
    ensures
        check_result(r, is_currency_param(currency@), currency_msg()),
{
    if str_eq(currency, "USD") || str_eq(currency, "USDC") {
        Ok(())
    } else {
        Err(ApiError::bad_request("currency must be either 'USD' or 'USDC'"))
    }
}

/// Checks the timeseries query: the metric, then the timeframe, then the
/// currency; the first that fails is answered.
pub fn check_timeseries_query(query: &TimeseriesQuery) -> (r: Result<(), ApiError>)
    ensures
        !is_metric_param(query.metric@) ==> rejected(r, metric_msg()),
        is_metric_param(query.metric@) && !is_timeframe_param(query.timeframe@) ==> rejected(r, timeframe_msg()),
        is_metric_param(query.metric@) && is_timeframe_param(query.timeframe@)
            && !is_currency_param(query.currency@) ==> rejected(r, currency_msg()),
        r is Ok <==> is_metric_param(query.metric@) && is_timeframe_param(query.timeframe@)
            && is_currency_param(query.currency@),
{
    check_metric(query.metric.as_str())?;
    check_timeframe(query.timeframe.as_str())?;
    check_currency(query.currency.as_str())
}

/// Checks the composition series query: the timeframe, then the grouping.
pub fn check_composition_series_query(query: &CompositionSeriesQuery) -> (r: Result<(), ApiError>)
    ensures
        !is_timeframe_param(query.timeframe@) ==> rejected(r, timeframe_msg()),
        is_timeframe_param(query.timeframe@) && !is_group_by_param(query.group_by@) ==> rejected(r, group_by_msg()),
        r is Ok <==> is_timeframe_param(query.timeframe@) && is_group_by_param(query.group_by@),
{
    check_timeframe(query.timeframe.as_str())?;
    check_group_by(query.group_by.as_str())
}

} // verus!
