//! What the vault API's handlers decide once their data is loaded: vault
//! status and kind, indexer readiness, paging of a transaction history, the
//! figures of a position summary, pending redeems, and the shaping of data
//! from the alternative vault API.
use crate::decimal::{
    decimal_checked_add, decimal_checked_mul, decimal_checked_sub, decimal_display, decimal_parse,
    saturating_sub_view,
    zero_view, Dec, DecView,
};
use crate::dto::{
    AlternativeHistoryEntry, AlternativeVaultDTO, AprBasis, HistoryParams, PendingRedeem,
    PositionFigures, TimeseriesPoint, UserTransaction as TransactionItem, UserTransactionHistory,
};
use crate::indexer::{has_valid_status, status_is};
use crate::kpi::{
    cost_basis_view, try_calculate_user_kpis, user_kpis_spec, KpiCalculationResult, KpiError,
};
use crate::models::{IndexerState, UserKpi, UserTransaction};
use crate::numtext::{i32_to_text, int_text, lemma_i32_text_round_trip, parse_i32, parse_i32_spec};
use crate::response::ApiError;
use crate::text::{ascii_lower_text, eq_ignore_ascii_case_left, str_eq};
use crate::models::UserPosition;
use crate::time::Timestamp;
use crate::types::{
    lemma_indexer_status_text_injective, transaction_status_text, transaction_type_text,
    IndexerStatus, PerformanceMetric, Timeframe, TransactionStatus, TransactionType,
};
use chrono::{DateTime, Utc};
use vstd::prelude::*;
use vstd::string::StringExecFns;

verus! {

// ---------------------------------------------------------------------------
// Vaults

/// The status the API shows for a stored vault status: `active` is shown as
/// `live`, every other status as it is.
pub open spec fn shown_status(status: Seq<char>) -> Seq<char> {
    if status == "active"@ {
        "live"@
    } else {
        status
    }
}

/// The status the API shows for a stored vault status.
pub fn map_status(status: &str) -> (r: String)
    ensures
        r@ == shown_status(status@),
{
    if str_eq(status, "active") {
        "live".to_owned()
    } else {
        status.to_owned()
    }
}

/// The vault is served by the alternative vault API: its id reads as an
/// `i32` from 2 to 6.
pub open spec fn is_alternative_vault_spec(vault_id: Seq<char>) -> bool {
    parse_i32_spec(vault_id) matches Some(n) && 2 <= n <= 6
}

/// Vaults 2 through 6 rely on the alternative vault API.
pub fn is_alternative_vault(vault_id: &str) -> (r: bool)
    ensures
        r == is_alternative_vault_spec(vault_id@),
{
    match parse_i32(vault_id) {
        Some(id) => 2 <= id && id <= 6,
        None => false,
    }
}

/// The history to ask the alternative vault API for, by timeframe: 20
/// reports over 7 days for `7d`, 60 over 7 days for `30d`, 120 over 30 days
/// for `1y`, 200 over 30 days for anything else.
pub open spec fn history_params_spec(timeframe: Seq<char>) -> HistoryParams {
    if timeframe == "7d"@ {
        HistoryParams { max_reports: 20, apr_calculation_delta: 7 }
    } else if timeframe == "30d"@ {
        HistoryParams { max_reports: 60, apr_calculation_delta: 7 }
    } else if timeframe == "1y"@ {
        HistoryParams { max_reports: 120, apr_calculation_delta: 30 }
    } else {
        HistoryParams { max_reports: 200, apr_calculation_delta: 30 }
    }
}

/// How much history to ask the alternative vault API for.
pub fn history_params(timeframe: &str) -> (r: HistoryParams)
    ensures
        r == history_params_spec(timeframe@),
{
    if str_eq(timeframe, "7d") {
        HistoryParams { max_reports: 20, apr_calculation_delta: 7 }
    } else if str_eq(timeframe, "30d") {
        HistoryParams { max_reports: 60, apr_calculation_delta: 7 }
    } else if str_eq(timeframe, "1y") {
        HistoryParams { max_reports: 120, apr_calculation_delta: 30 }
    } else {
        HistoryParams { max_reports: 200, apr_calculation_delta: 30 }
    }
}

impl AprBasis {
    /// The basis a query text names: `inflation_adjusted`, or nominal for any
    /// other text.
    pub fn from_query(s: &str) -> (r: AprBasis)
        ensures
            r == (if s@ == "inflation_adjusted"@ {
                AprBasis::InflationAdjusted
            } else {
                AprBasis::Nominal
            }),
    {
        if str_eq(s, "inflation_adjusted") {
            AprBasis::InflationAdjusted
        } else {
            AprBasis::Nominal
        }
    }
}

/// What a vault's own API answered for the vault list.
pub enum VaultListFigures {
    /// The alternative vault API's snapshot of the vault; `None` when the
    /// call failed.
    Alternative(Option<AlternativeVaultDTO>),
    /// The vault API's TVL and past-month APR, written as text; `None` when
    /// the call failed.
    Master(Option<(String, String)>),
}

/// A text, or `0` when there is none.
pub open spec fn text_or_zero(t: Option<String>) -> Seq<char> {
    match t {
        Some(s) => s@,
        None => "0"@,
    }
}

/// The TVL the vault list shows: what the vault's API answered, `0` when it
/// gave none or the call failed.
pub open spec fn listed_tvl(figures: VaultListFigures) -> Seq<char> {
    match figures {
        VaultListFigures::Alternative(Some(d)) => text_or_zero(d.tvl),
        VaultListFigures::Master(Some(p)) => p.0@,
        _ => "0"@,
    }
}

/// The APR the vault list shows, as for the TVL.
pub open spec fn listed_apr(figures: VaultListFigures) -> Seq<char> {
    match figures {
        VaultListFigures::Alternative(Some(d)) => text_or_zero(d.apr),
        VaultListFigures::Master(Some(p)) => p.1@,
        _ => "0"@,
    }
}

fn or_zero(t: Option<String>) -> (r: String)
    ensures
        r@ == text_or_zero(t),
{
    match t {
        Some(s) => s,
        None => "0".to_owned(),
    }
}

/// A vault's entry in the vault list: its stored fields, its status as the
/// API shows it, and the figures its API answered (the redeem delay and the
/// last report only come from the alternative vault API).
pub fn vault_list_item(
    id: String,
    name: String,
    description: Option<String>,
    chain: String,
    symbol: String,
    status: &str,
    figures: VaultListFigures,
) -> (r: crate::dto::VaultListItem)
    ensures
        r.id == id,
        r.name == name,
        r.description == description,
        r.chain == chain,
        r.symbol == symbol,
        r.status@ == shown_status(status@),
        r.tvl@ == listed_tvl(figures),
        r.apr@ == listed_apr(figures),
        r.average_redeem_delay == (match figures {
            VaultListFigures::Alternative(Some(d)) => d.average_redeem_delay,
            _ => None,
        }),
        r.last_reported == (match figures {
            VaultListFigures::Alternative(Some(d)) => d.last_reported,
            _ => None,
        }),
{
    let (tvl, apr, average_redeem_delay, last_reported) = match figures {
        VaultListFigures::Alternative(Some(d)) => (
            or_zero(d.tvl),
            or_zero(d.apr),
            d.average_redeem_delay,
            d.last_reported,
        ),
        VaultListFigures::Master(Some(p)) => (p.0, p.1, None, None),
        _ => ("0".to_owned(), "0".to_owned(), None, None),
    };
    crate::dto::VaultListItem {
        id,
        name,
        description,
        chain,
        symbol,
        tvl,
        apr,
        status: map_status(status),
        average_redeem_delay,
        last_reported,
    }
}

/// The error for a user that does not exist: `User {address} not found`.
pub fn user_not_found(address: &str) -> (r: ApiError)
    ensures
        r matches ApiError::NotFound(m) && m@ == "User "@ + address@ + " not found"@,
{
    ApiError::NotFound(concat3("User ", address, " not found"))
}

/// The error for a user without a position in a vault.
pub fn position_not_found(address: &str, vault_id: &str) -> (r: ApiError)
    ensures
        r matches ApiError::NotFound(m) && m@ == "Position for user "@ + address@ + " in vault "@
            + vault_id@ + " not found"@,
{
    let mut s = "Position for user ".to_owned();
    s.append(address);
    s.append(" in vault ");
    s.append(vault_id);
    s.append(" not found");
    ApiError::NotFound(s)
}

fn concat3(a: &str, b: &str, c: &str) -> (r: String)
    ensures
        r@ == a@ + b@ + c@,
{
    let mut s = a.to_owned();
    s.append(b);
    s.append(c);
    s
}

/// The error for a vault that does not exist: `Vault {id} not found`.
pub fn vault_not_found(vault_id: &str) -> (r: ApiError)
    ensures
        r matches ApiError::NotFound(m) && m@ == "Vault "@ + vault_id@ + " not found"@,
{
    ApiError::NotFound(concat3("Vault ", vault_id, " not found"))
}

/// The message answered while the indexer is in error.
pub open spec fn indexer_error_msg() -> Seq<char> {
    "Indexer is currently experiencing issues. Please try again later."@
}

/// The message answered while the indexer is not synced.
pub open spec fn indexer_syncing_msg() -> Seq<char> {
    "Indexer is still syncing. Data may be incomplete. Please try again later."@
}

/// `r` answers that the service is unavailable, with the message `msg`.
pub open spec fn unavailable(r: Result<(), ApiError>, msg: Seq<char>) -> bool {
    r matches Err(ApiError::ServiceUnavailable(m)) && m@ == msg
}

/// Whether a vault's indexer can serve user data: not while it is in error,
/// and not before it is synced.
pub fn validate_indexer_status(state: &IndexerState) -> (r: Result<(), ApiError>)
    requires
        has_valid_status(state),
    ensures
        status_is(state, IndexerStatus::Error) ==> unavailable(r, indexer_error_msg()),
        !status_is(state, IndexerStatus::Error) && !status_is(state, IndexerStatus::Synced)
            ==> unavailable(r, indexer_syncing_msg()),
        r is Ok <==> status_is(state, IndexerStatus::Synced),
{
    proof {
        lemma_indexer_status_text_injective(IndexerStatus::Error, IndexerStatus::Synced);
    }
    if state.is_error() {
        return Err(
            ApiError::ServiceUnavailable(
                "Indexer is currently experiencing issues. Please try again later.".to_owned(),
            ),
        );
    }
    if !state.is_synced() {
        return Err(
            ApiError::ServiceUnavailable(
                "Indexer is still syncing. Data may be incomplete. Please try again later.".to_owned(),
            ),
        );
    }
    Ok(())
}

// ---------------------------------------------------------------------------
// Transaction history

/// The page size of a transaction history request: the requested limit (50
/// when none is given) clamped to `1..=200`.
pub open spec fn page_limit_spec(limit: Option<i64>) -> i64 {
    let v = match limit {
        Some(l) => l,
        None => 50,
    };
    if v < 1 {
        1
    } else if v > 200 {
        200
    } else {
        v
    }
}

/// The page size of a transaction history request.
pub fn page_limit(limit: Option<i64>) -> (r: i64)
    ensures
        r == page_limit_spec(limit),
        1 <= r <= 200,
{
    let v = match limit {
        Some(l) => l,
        None => 50,
    };
    if v < 1 {
        1
    } else if v > 200 {
        200
    } else {
        v
    }
}

/// The transaction id a pagination cursor names: the cursor read as an
/// `i32`, none when there is no cursor or it does not read as one.
pub fn cursor_id(cursor: &Option<String>) -> (r: Option<i32>)
    ensures
        r == (match cursor {
            Some(c) => parse_i32_spec(c@),
            None => None,
        }),
{
    match cursor {
        Some(c) => parse_i32(c.as_str()),
        None => None,
    }
}

/// One page of a history loaded with one row more than the page size: the
/// first `limit` rows, and, when the extra row came, a cursor holding the id
/// of the last row returned.
pub fn page_of(transactions: Vec<UserTransaction>, limit: i64) -> (r: (
    Vec<UserTransaction>,
    Option<String>,
))
    requires
        1 <= limit <= 200,
    ensures
        transactions@.len() > limit ==> r.0@ == transactions@.take(limit as int),
        transactions@.len() <= limit ==> r.0@ == transactions@,
        r.1 is Some <==> transactions@.len() > limit,
        r.1 matches Some(c) ==> c@ == int_text(r.0@.last().id as int),
        r.1 matches Some(c) ==> parse_i32_spec(c@) == Some(r.0@.last().id),
{
    let mut items = transactions;
    let limit_usize = limit as usize;
    if items.len() > limit_usize {
        items.truncate(limit_usize);
        let last_id = items[limit_usize - 1].id;
        let cursor = i32_to_text(last_id);
        proof {
            lemma_i32_text_round_trip(last_id);
            assert(items@.last().id == last_id);
        }
        (items, Some(cursor))
    } else {
        (items, None)
    }
}

/// A stored transaction holds the text of a transaction type and of a
/// transaction status.
pub open spec fn has_valid_kind(tx: &UserTransaction) -> bool {
    &&& exists|t: TransactionType| transaction_type_text(t) == tx.type_@
    &&& exists|t: TransactionStatus| transaction_status_text(t) == tx.status@
}

impl TransactionItem {
    /// A stored transaction as the API shows it: its id and amount as text, and
    /// its type and status read from their texts.
    pub fn from(tx: UserTransaction) -> (r: TransactionItem)
        requires
            has_valid_kind(&tx),
        ensures
            r.id@ == int_text(tx.id as int),
            r.vault_id == tx.vault_id,
            transaction_type_text(r.transaction_type) == tx.type_@,
            transaction_status_text(r.status) == tx.status@,
            r.amount@ == decimal_display(tx.amount@),
            r.tx_hash == tx.tx_hash,
            r.timestamp == tx.block_timestamp,
    {
        let transaction_type = match TransactionType::parse(tx.type_.as_str()) {
            Some(t) => t,
            None => {
                proof {
                    assert(false);
                }
                TransactionType::Deposit
            },
        };
        let status = match TransactionStatus::parse(tx.status.as_str()) {
            Some(t) => t,
            None => {
                proof {
                    assert(false);
                }
                TransactionStatus::Pending
            },
        };
        TransactionItem {
            id: i32_to_text(tx.id),
            vault_id: tx.vault_id,
            transaction_type,
            status,
            amount: tx.amount.to_text(),
            tx_hash: tx.tx_hash,
            timestamp: tx.block_timestamp,
        }
    }
}

/// The transaction history page of a history loaded with one row more than
/// the page size.
pub fn transaction_history(transactions: Vec<UserTransaction>, limit: i64) -> (r:
    UserTransactionHistory)
    requires
        1 <= limit <= 200,
        forall|i: int| 0 <= i < transactions@.len() ==> has_valid_kind(&#[trigger] transactions@[i]),
    ensures
        r.items@.len() == (if transactions@.len() > limit {
            limit as int
        } else {
            transactions@.len() as int
        }),
        forall|i: int|
            0 <= i < r.items@.len() ==> (#[trigger] r.items@[i]).id@ == int_text(
                transactions@[i].id as int,
            ) && r.items@[i].vault_id == transactions@[i].vault_id && r.items@[i].tx_hash
                == transactions@[i].tx_hash && r.items@[i].timestamp
                == transactions@[i].block_timestamp && r.items@[i].amount@ == decimal_display(
                transactions@[i].amount@,
            ) && transaction_type_text(r.items@[i].transaction_type) == transactions@[i].type_@
                && transaction_status_text(r.items@[i].status) == transactions@[i].status@,
        r.next_cursor is Some <==> transactions@.len() > limit,
        r.next_cursor matches Some(c) ==> parse_i32_spec(c@) == Some(
            transactions@[limit - 1].id,
        ),
{
    let ghost all = transactions@;
    let (page, next_cursor) = page_of(transactions, limit);
    let ghost page_seq = page@;
    let mut items: Vec<TransactionItem> = Vec::new();
    let mut rest = page;
    while rest.len() > 0
        invariant
            items@.len() + rest@.len() == page_seq.len(),
            rest@ == page_seq.skip(items@.len() as int),
            page_seq.len() <= all.len(),
            forall|i: int| 0 <= i < page_seq.len() ==> page_seq[i] == all[i],
            forall|i: int| 0 <= i < all.len() ==> has_valid_kind(&#[trigger] all[i]),
            forall|i: int|
                0 <= i < items@.len() ==> (#[trigger] items@[i]).id@ == int_text(all[i].id as int)
                    && items@[i].vault_id == all[i].vault_id && items@[i].tx_hash == all[i].tx_hash
                    && items@[i].timestamp == all[i].block_timestamp && items@[i].amount@
                    == decimal_display(all[i].amount@) && transaction_type_text(
                    items@[i].transaction_type,
                ) == all[i].type_@ && transaction_status_text(items@[i].status) == all[i].status@,
        decreases rest@.len(),
    {
        let ghost k = items@.len() as int;
        let tx = rest.remove(0);
        proof {
            assert(tx == all[k]);
            assert(rest@ =~= page_seq.skip(k + 1));
        }
        items.push(TransactionItem::from(tx));
    }
    UserTransactionHistory { items, next_cursor }
}

impl PendingRedeem {
    /// A stored redeem transaction as a pending redeem.
    pub fn from(tx: UserTransaction) -> (r: PendingRedeem)
        requires
            exists|t: TransactionType| transaction_type_text(t) == tx.type_@,
        ensures
            r.vault_id == tx.vault_id,
            r.amount@ == decimal_display(tx.amount@),
            transaction_type_text(r.transaction_type) == tx.type_@,
            r.tx_hash == tx.tx_hash,
            r.submitted_at == tx.block_timestamp,
    {
        let transaction_type = match TransactionType::parse(tx.type_.as_str()) {
            Some(t) => t,
            None => {
                proof {
                    assert(false);
                }
                TransactionType::Deposit
            },
        };
        PendingRedeem {
            vault_id: tx.vault_id,
            amount: tx.amount.to_text(),
            transaction_type,
            tx_hash: tx.tx_hash,
            submitted_at: tx.block_timestamp,
        }
    }
}

// ---------------------------------------------------------------------------
// Pending assets

/// The transaction is pending and, when a vault is asked for, in that vault.
pub open spec fn is_pending_in(tx: UserTransaction, vault_filter: Option<String>) -> bool {
    &&& vault_filter matches Some(v) ==> tx.vault_id@ == v@
    &&& tx.status@ == transaction_status_text(TransactionStatus::Pending)
}

/// The pending transactions of `txs`, in order.
pub open spec fn pending_in(txs: Seq<UserTransaction>, vault_filter: Option<String>) -> Seq<
    UserTransaction,
>
    decreases txs.len(),
{
    if txs.len() == 0 {
        Seq::empty()
    } else {
        let rest = pending_in(txs.drop_first(), vault_filter);
        if is_pending_in(txs[0], vault_filter) {
            seq![txs[0]] + rest
        } else {
            rest
        }
    }
}

/// Every transaction kept as pending is pending, in the vault asked for,
/// and one of the user's transactions.
pub proof fn lemma_pending_are_pending(txs: Seq<UserTransaction>, vault_filter: Option<String>, i: int)
    requires
        0 <= i < pending_in(txs, vault_filter).len(),
    ensures
        is_pending_in(pending_in(txs, vault_filter)[i], vault_filter),
        txs.contains(pending_in(txs, vault_filter)[i]),
    decreases txs.len(),
{
    let rest = pending_in(txs.drop_first(), vault_filter);
    if is_pending_in(txs[0], vault_filter) {
        if i == 0 {
            assert(txs[0] == txs[0]);
        } else {
            assert(pending_in(txs, vault_filter)[i] == rest[i - 1]);
            lemma_pending_are_pending(txs.drop_first(), vault_filter, i - 1);
            let k = choose|k: int| 0 <= k < txs.drop_first().len() && txs.drop_first()[k] == rest[i - 1];
            assert(txs[k + 1] == rest[i - 1]);
        }
    } else {
        lemma_pending_are_pending(txs.drop_first(), vault_filter, i);
        let k = choose|k: int| 0 <= k < txs.drop_first().len() && txs.drop_first()[k] == rest[i];
        assert(txs[k + 1] == rest[i]);
    }
}

/// A user's pending transactions, in the vault asked for if any.
pub fn pending_transactions(txs: Vec<UserTransaction>, vault_filter: &Option<String>) -> (r: Vec<
    UserTransaction,
>)
    ensures
        r@ == pending_in(txs@, *vault_filter),
{
    let ghost all = txs@;
    let mut out: Vec<UserTransaction> = Vec::new();
    let mut rest = txs;
    while rest.len() > 0
        invariant
            out@ + pending_in(rest@, *vault_filter) == pending_in(all, *vault_filter),
        decreases rest@.len(),
    {
        let ghost before = rest@;
        let tx = rest.remove(0);
        proof {
            assert(before.drop_first() =~= rest@);
        }
        let in_vault = match vault_filter {
            Some(v) => str_eq(tx.vault_id.as_str(), v.as_str()),
            None => true,
        };
        let pending = str_eq(tx.status.as_str(), TransactionStatus::Pending.as_str());
        if in_vault && pending {
            let ghost out_before = out@;
            out.push(tx);
            proof {
                assert(out_before + (seq![tx] + pending_in(rest@, *vault_filter)) =~= out@
                    + pending_in(rest@, *vault_filter));
            }
        }
    }
    proof {
        assert(out@ + pending_in(rest@, *vault_filter) =~= out@);
    }
    out
}

/// The value of an amount text: what `Decimal::from_str` reads, zero when it
/// reads nothing.
pub open spec fn amount_or_zero(s: Seq<char>) -> DecView {
    match decimal_parse(s) {
        Some(d) => d,
        None => zero_view(),
    }
}

/// The sum of the amount texts, added from the first, or `None` where an
/// addition overflows.
pub open spec fn amounts_total(amounts: Seq<Seq<char>>) -> Option<DecView>
    decreases amounts.len(),
{
    if amounts.len() == 0 {
        Some(zero_view())
    } else {
        match amounts_total(amounts.drop_last()) {
            None => None,
            Some(t) => decimal_checked_add(t, amount_or_zero(amounts.last())),
        }
    }
}

fn amounts_total_checked(amounts: &Vec<String>) -> (r: Option<Dec>)
    ensures
        r is Some <==> amounts_total(amounts@.map_values(|s: String| s@)) is Some,
        r matches Some(d) ==> d@ == amounts_total(amounts@.map_values(|s: String| s@))->0,
{
    let ghost texts = amounts@.map_values(|s: String| s@);
    let mut total = Dec::zero();
    let mut i: usize = 0;
    while i < amounts.len()
        invariant
            i <= amounts.len(),
            texts == amounts@.map_values(|s: String| s@),
            amounts_total(texts.take(i as int)) == Some(total@),
        decreases amounts.len() - i,
    {
        proof {
            assert(texts.take(i + 1).drop_last() =~= texts.take(i as int));
            assert(texts.take(i + 1).last() == amounts@[i as int]@);
        }
        let amount = match Dec::parse(amounts[i].as_str()) {
            Ok(d) => d,
            Err(_) => Dec::zero(),
        };
        match total.checked_add(&amount) {
            Some(t) => {
                total = t;
            },
            None => {
                proof {
                    lemma_amounts_total_none_prefix(texts, i + 1);
                }
                return None;
            },
        }
        i = i + 1;
    }
    proof {
        assert(texts.take(amounts.len() as int) =~= texts);
    }
    Some(total)
}

proof fn lemma_amounts_total_none_prefix(s: Seq<Seq<char>>, n: int)
    requires
        0 <= n <= s.len(),
        amounts_total(s.take(n)) is None,
    ensures
        amounts_total(s) is None,
    decreases s.len() - n,
{
    if n == s.len() {
        assert(s.take(n) =~= s);
    } else {
        assert(s.take(n + 1).drop_last() =~= s.take(n));
        lemma_amounts_total_none_prefix(s, n + 1);
    }
}

/// The total of pending amounts: each amount text read as a decimal (zero
/// when it does not read as one), summed.
pub fn total_pending(amounts: &Vec<String>) -> (r: Dec)
    requires
        amounts_total(amounts@.map_values(|s: String| s@)) is Some,
    ensures
        r@ == amounts_total(amounts@.map_values(|s: String| s@))->0,
{
    match amounts_total_checked(amounts) {
        Some(d) => d,
        None => {
            proof {
                assert(false);
            }
            Dec::zero()
        },
    }
}

/// `total_pending` where no addition overflows, `None` where one would.
pub fn try_total_pending(amounts: &Vec<String>) -> (r: Option<Dec>)
    ensures
        r is Some <==> amounts_total(amounts@.map_values(|s: String| s@)) is Some,
        r matches Some(d) ==> d@ == amounts_total(amounts@.map_values(|s: String| s@))->0,
{
    amounts_total_checked(amounts)
}

// ---------------------------------------------------------------------------
// Position summary

/// The figures of a position summary: value = balance * price, the total
/// deposits (zero when there are none), and the earnings value - deposits,
/// saturating at the bounds of `Decimal`; `None` where the product overflows.
pub open spec fn position_figures_spec(
    share_balance: DecView,
    share_price: DecView,
    total_deposits: Option<DecView>,
) -> Option<(DecView, DecView, DecView)> {
    match decimal_checked_mul(share_balance, share_price) {
        None => None,
        Some(value) => {
            let deposits = match total_deposits {
                Some(d) => d,
                None => zero_view(),
            };
            Some((value, deposits, saturating_sub_view(value, deposits)))
        },
    }
}

/// The figures of a position summary: its value is the balance times the
/// price, its deposits are the total given (zero when there is none), and
/// its earnings are the value less the deposits whenever that difference
/// fits in `Decimal` (negative when the value is below the deposits); only
/// a difference that overflows saturates, to `Decimal::MAX` for a value that
/// is not negative and to `Decimal::MIN` for one that is.
pub proof fn lemma_earnings_are_value_less_deposits(
    share_balance: DecView,
    share_price: DecView,
    total_deposits: Option<DecView>,
)
    ensures
        position_figures_spec(share_balance, share_price, total_deposits) is Some
            <==> decimal_checked_mul(share_balance, share_price) is Some,
        position_figures_spec(share_balance, share_price, total_deposits) matches Some(
            (value, deposits, earned),
        ) ==> {
            &&& Some(value) == decimal_checked_mul(share_balance, share_price)
            &&& deposits == (match total_deposits {
                Some(d) => d,
                None => (0int, 0nat),
            })
            &&& decimal_checked_sub(value, deposits) matches Some(diff) ==> earned == diff
            &&& decimal_checked_sub(value, deposits) is None && value.0 >= 0 ==> earned
                == crate::decimal::max_value_view()
            &&& decimal_checked_sub(value, deposits) is None && value.0 < 0 ==> earned == (
                -crate::decimal::MAX_MANTISSA as int,
                0nat,
            )
        },
{
}

/// The view of an optional decimal.
pub open spec fn opt_view(d: Option<Dec>) -> Option<DecView> {
    match d {
        Some(x) => Some(x@),
        None => None,
    }
}

/// The figures of a user's position summary.
pub fn position_figures(share_balance: Dec, share_price: Dec, total_deposits: Option<Dec>) -> (r:
    PositionFigures)
    requires
        position_figures_spec(share_balance@, share_price@, opt_view(total_deposits)) is Some,
    ensures
        (r.position_value@, r.total_deposits@, r.all_time_earned@) == position_figures_spec(
            share_balance@,
            share_price@,
            opt_view(total_deposits),
        )->0,
{
    let position_value = match share_balance.checked_mul(&share_price) {
        Some(v) => v,
        None => {
            proof {
                assert(false);
            }
            Dec::zero()
        },
    };
    let total_deposits = match total_deposits {
        Some(d) => d,
        None => Dec::zero(),
    };
    let all_time_earned = position_value.saturating_sub(&total_deposits);
    PositionFigures { position_value, total_deposits, all_time_earned }
}

/// `position_figures` where the product does not overflow, `None` where it
/// would.
pub fn try_position_figures(share_balance: Dec, share_price: Dec, total_deposits: Option<Dec>) -> (r:
    Option<PositionFigures>)
    ensures
        r is Some <==> position_figures_spec(
            share_balance@,
            share_price@,
            opt_view(total_deposits),
        ) is Some,
        r matches Some(f) ==> (f.position_value@, f.total_deposits@, f.all_time_earned@)
            == position_figures_spec(share_balance@, share_price@, opt_view(total_deposits))->0,
{
    if share_balance.checked_mul(&share_price).is_some() {
        Some(position_figures(share_balance, share_price, total_deposits))
    } else {
        None
    }
}

/// The error for a user without a position in a vault, as the position
/// summary answers it.
pub fn user_position_not_found(address: &str, vault_id: &str) -> (r: ApiError)
    ensures
        r matches ApiError::NotFound(m) && m@ == "User "@ + address@ + " position in vault "@
            + vault_id@ + " not found"@,
{
    let mut s = "User ".to_owned();
    s.append(address);
    s.append(" position in vault ");
    s.append(vault_id);
    s.append(" not found");
    ApiError::NotFound(s)
}

/// A user's position summary: the position's balance and first deposit, the
/// share price, and the figures of the position, each number as the text
/// `Decimal` writes.
pub fn position_summary(
    vault_id: String,
    as_of: Timestamp,
    position: &UserPosition,
    share_price: Dec,
    figures: &PositionFigures,
) -> (r: crate::dto::UserPositionSummary)
    ensures
        r.vault_id == vault_id,
        r.as_of == as_of,
        r.position_value_usd@ == decimal_display(figures.position_value@),
        r.share_balance@ == decimal_display(position.share_balance@),
        r.share_price@ == decimal_display(share_price@),
        r.first_deposit_at == position.first_deposit_at,
        r.total_deposits@ == decimal_display(figures.total_deposits@),
        r.all_time_earned@ == decimal_display(figures.all_time_earned@),
{
    crate::dto::UserPositionSummary {
        vault_id,
        as_of,
        position_value_usd: figures.position_value.to_text(),
        share_balance: position.share_balance.to_text(),
        share_price: share_price.to_text(),
        first_deposit_at: position.first_deposit_at,
        total_deposits: figures.total_deposits.to_text(),
        all_time_earned: figures.all_time_earned.to_text(),
    }
}

/// A user's historical performance of `metric` over `timeframe`: each
/// `(time, value)` point with its value as the text `Decimal` writes.
pub fn historical_user_performance(
    metric: PerformanceMetric,
    timeframe: Timeframe,
    points: &Vec<(Timestamp, Dec)>,
) -> (r: crate::dto::HistoricalUserPerformance)
    ensures
        r.metric == metric,
        r.timeframe == timeframe,
        r.points@.len() == points@.len(),
        forall|i: int|
            0 <= i < points@.len() ==> (#[trigger] r.points@[i]).t == points@[i].0
                && r.points@[i].v@ == decimal_display(points@[i].1@),
{
    let mut out: Vec<crate::dto::HistoricalDataPoint> = Vec::new();
    let mut i: usize = 0;
    while i < points.len()
        invariant
            i <= points.len(),
            out@.len() == i,
            forall|j: int|
                0 <= j < i ==> (#[trigger] out@[j]).t == points@[j].0 && out@[j].v@
                    == decimal_display(points@[j].1@),
        decreases points.len() - i,
    {
        let (t, v) = points[i];
        out.push(crate::dto::HistoricalDataPoint { t, v: v.to_text() });
        i = i + 1;
    }
    crate::dto::HistoricalUserPerformance { metric, timeframe, points: out }
}

/// The PnL of a position valued at the share price that the vault API
/// answered as text: an internal error when the text does not read as a
/// decimal or a figure cannot be computed; `None` where `Decimal`
/// arithmetic would overflow.
pub fn user_kpis_from_price_text(
    share_balance: Dec,
    share_price: &str,
    cost_basis_and_realized_pnl: Result<(Dec, Dec), KpiError>,
) -> (r: Option<Result<KpiCalculationResult, ApiError>>)
    ensures
        decimal_parse(share_price@) is None ==> r matches Some(Err(ApiError::InternalServerError)),
        decimal_parse(share_price@) matches Some(p) ==> {
            let s = user_kpis_spec(share_balance@, p, cost_basis_view(cost_basis_and_realized_pnl));
            &&& r is Some <==> s is Some
            &&& r matches Some(res) ==> match s->0 {
                Ok(Ok((all_time, unrealized, realized))) => res matches Ok(k) && k.all_time_pnl@
                    == all_time && k.unrealized_pnl@ == unrealized && k.realized_pnl@ == realized,
                _ => res matches Err(ApiError::InternalServerError),
            }
        },
{
    let price = match Dec::parse(share_price) {
        Ok(p) => p,
        Err(_) => return Some(Err(ApiError::InternalServerError)),
    };
    match try_calculate_user_kpis(share_balance, price, cost_basis_and_realized_pnl) {
        None => None,
        Some(Ok(k)) => Some(Ok(k)),
        Some(Err(_)) => Some(Err(ApiError::InternalServerError)),
    }
}

/// The share price that the vault API answered as text, read as a decimal,
/// and the figures of a position summary at that price: an internal error
/// when the text does not read as a decimal; `None` where the value of the
/// position overflows.
pub fn position_figures_from_price_text(
    share_balance: Dec,
    share_price: &str,
    total_deposits: Option<Dec>,
) -> (r: Option<Result<(Dec, PositionFigures), ApiError>>)
    ensures
        decimal_parse(share_price@) is None ==> r matches Some(Err(ApiError::InternalServerError)),
        decimal_parse(share_price@) matches Some(p) ==> {
            let s = position_figures_spec(share_balance@, p, opt_view(total_deposits));
            &&& r is Some <==> s is Some
            &&& r matches Some(res) ==> res matches Ok((price, f)) && price@ == p && (
            f.position_value@,
            f.total_deposits@,
            f.all_time_earned@,
            ) == s->0
        },
{
    let price = match Dec::parse(share_price) {
        Ok(p) => p,
        Err(_) => return Some(Err(ApiError::InternalServerError)),
    };
    match try_position_figures(share_balance, price, total_deposits) {
        None => None,
        Some(f) => Some(Ok((price, f))),
    }
}

/// The cached KPIs of a user with the PnL figures computed now in place of
/// the cached ones.
pub fn with_current_pnl(kpi: UserKpi, pnl: &KpiCalculationResult) -> (r: UserKpi)
    ensures
        r == (UserKpi {
            all_time_pnl: Some(pnl.all_time_pnl),
            unrealized_pnl: Some(pnl.unrealized_pnl),
            realized_pnl: Some(pnl.realized_pnl),
            ..kpi
        }),
{
    let mut k = kpi;
    k.all_time_pnl = Some(pnl.all_time_pnl);
    k.unrealized_pnl = Some(pnl.unrealized_pnl);
    k.realized_pnl = Some(pnl.realized_pnl);
    k
}

// ---------------------------------------------------------------------------
// Alternative vault API

/// The RFC 3339 text of the UTC time `secs` seconds after the Unix epoch, as
/// `chrono` writes it, or `None` where `chrono` cannot represent that time.
pub uninterp spec fn rfc3339_of_secs(secs: int) -> Option<Seq<char>>;

/// Calls `chrono::DateTime::<Utc>::from_timestamp(timestamp, 0)` and writes
/// the time with `DateTime::to_rfc3339`.
#[verifier::external_body]
fn to_rfc3339(timestamp: i64) -> (r: Option<String>)
    ensures
        r is Some <==> rfc3339_of_secs(timestamp as int) is Some,
        r matches Some(s) ==> s@ == rfc3339_of_secs(timestamp as int)->0,
{
    DateTime::<Utc>::from_timestamp(timestamp, 0).map(|dt| dt.to_rfc3339())
}

/// The lowercase of a text, as `str::to_lowercase` makes it.
pub uninterp spec fn unicode_lowercase(s: Seq<char>) -> Seq<char>;

/// Calls `str::to_lowercase`.
#[verifier::external_body]
fn to_lowercase(s: &str) -> (r: String)
    ensures
        r@ == unicode_lowercase(s@),
{
    s.to_lowercase()
}

/// The `(time, value)` points of a vault timeseries built from history
/// reports, for a metric already lowercased: reports whose time cannot be
/// written are skipped; `tvl` takes each report's TVL (`0` when it has
/// none); `pnl` gives no points; any other metric gives `0` at each time.
pub open spec fn timeseries_points(entries: Seq<AlternativeHistoryEntry>, metric: Seq<char>) -> Seq<
    (Seq<char>, Seq<char>),
>
    decreases entries.len(),
{
    if entries.len() == 0 {
        Seq::empty()
    } else {
        let rest = timeseries_points(entries.drop_last(), metric);
        let e = entries.last();
        match rfc3339_of_secs(e.timestamp as int) {
            None => rest,
            Some(t) => if metric == "tvl"@ {
                rest.push(
                    (
                        t,
                        match e.tvl {
                            Some(v) => v@,
                            None => "0"@,
                        },
                    ),
                )
            } else if metric == "pnl"@ {
                rest
            } else {
                rest.push((t, "0"@))
            },
        }
    }
}

/// The PnL timeseries built from the alternative vault API's reports has no
/// point, whatever the reports.
pub proof fn lemma_pnl_timeseries_is_empty(entries: Seq<AlternativeHistoryEntry>)
    ensures
        timeseries_points(entries, "pnl"@).len() == 0,
    decreases entries.len(),
{
    reveal_strlit("pnl");
    reveal_strlit("tvl");
    assert("pnl"@[0] != "tvl"@[0]);
    if entries.len() > 0 {
        lemma_pnl_timeseries_is_empty(entries.drop_last());
    }
}

/// The `(t, v)` texts of timeseries points.
pub open spec fn point_texts(points: Seq<TimeseriesPoint>) -> Seq<(Seq<char>, Seq<char>)> {
    points.map_values(|p: TimeseriesPoint| (p.t@, p.v@))
}

/// The vault timeseries of `metric` built from the alternative API's history
/// reports.
pub fn alternative_timeseries(
    history: &Vec<AlternativeHistoryEntry>,
    metric: &str,
    timeframe: &str,
) -> (r: crate::dto::VaultTimeseriesResponse)
    ensures
        r.metric@ == metric@,
        r.timeframe@ == timeframe@,
        point_texts(r.points@) == timeseries_points(history@, ascii_lower_text(metric@)),
{
    let is_tvl = eq_ignore_ascii_case_left(metric, "tvl");
    let is_pnl = eq_ignore_ascii_case_left(metric, "pnl");
    let ghost lower = ascii_lower_text(metric@);
    let mut points: Vec<TimeseriesPoint> = Vec::new();
    let mut i: usize = 0;
    while i < history.len()
        invariant
            i <= history.len(),
            is_tvl == (lower == "tvl"@),
            is_pnl == (lower == "pnl"@),
            point_texts(points@) == timeseries_points(history@.take(i as int), lower),
        decreases history.len() - i,
    {
        proof {
            assert(history@.take(i + 1).drop_last() =~= history@.take(i as int));
            assert(history@.take(i + 1).last() == history@[i as int]);
        }
        let entry = &history[i];
        match to_rfc3339(entry.timestamp) {
            None => {},
            Some(t) => {
                let value = if is_tvl {
                    match &entry.tvl {
                        Some(v) => Some(v.clone()),
                        None => Some("0".to_owned()),
                    }
                } else if is_pnl {
                    None
                } else {
                    Some("0".to_owned())
                };
                match value {
                    Some(v) => {
                        let ghost before = points@;
                        let point = TimeseriesPoint { t, v };
                        points.push(point);
                        proof {
                            assert(point_texts(points@) =~= point_texts(before).push(
                                (point.t@, point.v@),
                            ));
                        }
                    },
                    None => {},
                }
            },
        }
        i = i + 1;
    }
    proof {
        assert(history@.take(history.len() as int) =~= history@);
    }
    crate::dto::VaultTimeseriesResponse {
        metric: metric.to_owned(),
        timeframe: timeframe.to_owned(),
        points,
    }
}

/// The first vault whose address, lowercased, is the contract address
/// lowercased.
pub fn find_vault_by_address(vaults: Vec<AlternativeVaultDTO>, contract_address: &str) -> (r:
    Option<AlternativeVaultDTO>)
    ensures
        r is None <==> forall|i: int|
            0 <= i < vaults@.len() ==> unicode_lowercase((#[trigger] vaults@[i]).vault@)
                != unicode_lowercase(contract_address@),
        r matches Some(v) ==> exists|i: int|
            0 <= i < vaults@.len() && v == vaults@[i] && unicode_lowercase(v.vault@)
                == unicode_lowercase(contract_address@) && forall|j: int|
                0 <= j < i ==> unicode_lowercase((#[trigger] vaults@[j]).vault@)
                    != unicode_lowercase(contract_address@),
{
    let target = to_lowercase(contract_address);
    let ghost all = vaults@;
    let mut rest = vaults;
    let ghost mut k: int = 0;
    while rest.len() > 0
        invariant
            0 <= k <= all.len(),
            all == vaults@,
            rest@ == all.skip(k),
            target@ == unicode_lowercase(contract_address@),
            forall|j: int| 0 <= j < k ==> unicode_lowercase((#[trigger] all[j]).vault@) != target@,
        decreases rest@.len(),
    {
        let v = rest.remove(0);
        proof {
            assert(v == all[k]);
            assert(rest@ =~= all.skip(k + 1));
        }
        let lower = to_lowercase(v.vault.as_str());
        if str_eq(lower.as_str(), target.as_str()) {
            proof {
                assert(all == vaults@);
                assert(unicode_lowercase(all[k].vault@) == unicode_lowercase(contract_address@));
                assert(0 <= k < all.len() && v == all[k] && unicode_lowercase(v.vault@)
                    == unicode_lowercase(contract_address@) && forall|j: int|
                    0 <= j < k ==> unicode_lowercase((#[trigger] all[j]).vault@)
                        != unicode_lowercase(contract_address@));
            }
            return Some(v);
        }
        proof {
            k = k + 1;
        }
    }
    proof {
        assert(k == all.len());
    }
    None
}

/// Report `c` is the latest: no report is later, and every report before it
/// in the list is earlier (it comes first once the reports are sorted by
/// time, latest first, keeping the list order among equal times).
pub open spec fn is_latest(s: Seq<AlternativeHistoryEntry>, c: int) -> bool {
    &&& 0 <= c < s.len()
    &&& forall|j: int| 0 <= j < s.len() ==> (#[trigger] s[j]).timestamp <= s[c].timestamp
    &&& forall|j: int| 0 <= j < c ==> (#[trigger] s[j]).timestamp < s[c].timestamp
}

/// Report `p` comes right after report `c` once the reports are sorted by
/// time, latest first, keeping the list order among equal times.
pub open spec fn is_runner_up(s: Seq<AlternativeHistoryEntry>, c: int, p: int) -> bool {
    &&& 0 <= p < s.len()
    &&& p != c
    &&& forall|j: int| 0 <= j < s.len() && j != c ==> (#[trigger] s[j]).timestamp <= s[p].timestamp
    &&& forall|j: int| 0 <= j < p && j != c ==> (#[trigger] s[j]).timestamp < s[p].timestamp
}

/// The position of the latest report.
pub open spec fn latest_index(s: Seq<AlternativeHistoryEntry>) -> int {
    choose|c: int| is_latest(s, c)
}

/// The position of the report after the latest one.
pub open spec fn runner_up_index(s: Seq<AlternativeHistoryEntry>) -> int {
    choose|p: int| is_runner_up(s, latest_index(s), p)
}

/// At most one report is the latest.
pub proof fn lemma_latest_unique(s: Seq<AlternativeHistoryEntry>, a: int, b: int)
    requires
        is_latest(s, a),
        is_latest(s, b),
    ensures
        a == b,
{
    if a < b {
        assert(s[a].timestamp < s[b].timestamp);
    } else if b < a {
        assert(s[b].timestamp < s[a].timestamp);
    }
}

/// At most one report comes after a given one.
pub proof fn lemma_runner_up_unique(s: Seq<AlternativeHistoryEntry>, c: int, a: int, b: int)
    requires
        is_runner_up(s, c, a),
        is_runner_up(s, c, b),
    ensures
        a == b,
{
    if a < b {
        assert(s[a].timestamp < s[b].timestamp);
    } else if b < a {
        assert(s[b].timestamp < s[a].timestamp);
    }
}

/// The first report with the greatest time among those not at `skip`
/// (`skip` may lie outside the list), if there is any.
fn first_latest(history: &Vec<AlternativeHistoryEntry>, skip: usize) -> (r: Option<usize>)
    ensures
        r is None <==> history@.len() == 0 || (history@.len() == 1 && skip == 0),
        r matches Some(c) ==> {
            &&& c < history@.len()
            &&& c != skip
            &&& forall|j: int|
                0 <= j < history@.len() && j != skip ==> (#[trigger] history@[j]).timestamp
                    <= history@[c as int].timestamp
            &&& forall|j: int|
                0 <= j < c && j != skip ==> (#[trigger] history@[j]).timestamp
                    < history@[c as int].timestamp
        },
{
    let mut best: Option<usize> = None;
    let mut i: usize = 0;
    while i < history.len()
        invariant
            i <= history@.len(),
            best is None <==> i == 0 || (i == 1 && skip == 0),
            best matches Some(c) ==> {
                &&& c < i
                &&& c != skip
                &&& forall|j: int|
                    0 <= j < i && j != skip ==> (#[trigger] history@[j]).timestamp
                        <= history@[c as int].timestamp
                &&& forall|j: int|
                    0 <= j < c && j != skip ==> (#[trigger] history@[j]).timestamp
                        < history@[c as int].timestamp
            },
        decreases history.len() - i,
    {
        if i != skip {
            match best {
                None => {
                    best = Some(i);
                },
                Some(c) => {
                    if history[c].timestamp < history[i].timestamp {
                        best = Some(i);
                    }
                },
            }
        }
        i = i + 1;
    }
    best
}

/// The positions of the latest report and of the one after it, the way
/// sorting the reports by time (latest first, stable) places them; `None`
/// for no reports.
pub fn latest_two_reports(history: &Vec<AlternativeHistoryEntry>) -> (r: Option<(usize, Option<usize>)>)
    ensures
        r is None <==> history@.len() == 0,
        r matches Some((c, p)) ==> {
            &&& c == latest_index(history@)
            &&& is_latest(history@, c as int)
            &&& p is Some <==> history@.len() >= 2
            &&& p matches Some(q) ==> q == runner_up_index(history@) && is_runner_up(
                history@,
                c as int,
                q as int,
            )
        },
{
    let n = history.len();
    let c = match first_latest(history, n) {
        None => {
            return None;
        },
        Some(c) => c,
    };
    proof {
        assert(is_latest(history@, c as int));
        lemma_latest_unique(history@, c as int, latest_index(history@));
    }
    let p = first_latest(history, c);
    proof {
        if let Some(q) = p {
            assert(is_runner_up(history@, c as int, q as int));
            lemma_runner_up_unique(history@, c as int, q as int, runner_up_index(history@));
        }
    }
    Some((c, p))
}

/// What the latest NAV report shows, before the changes since the previous
/// report are computed: the latest report's time (or `now_rfc3339` where it
/// cannot be written), its assets in USD (its TVL, else `0`, when it has
/// none), and the APR and USD assets of the latest and the previous report.
pub struct NavLatestFields {
    pub date: String,
    pub aum: String,
    pub current_apr: Option<String>,
    pub previous_apr: Option<String>,
    pub current_tvl_usd: Option<String>,
    pub previous_tvl_usd: Option<String>,
}

/// The assets a report shows: its USD assets, else its TVL, else `0`.
pub open spec fn report_aum(e: AlternativeHistoryEntry) -> Seq<char> {
    match e.tvl_usd {
        Some(u) => u@,
        None => match e.tvl {
            Some(t) => t@,
            None => "0"@,
        },
    }
}

/// The fields of the latest NAV report of a vault's history, `None` when
/// there is no report.
pub fn nav_latest_fields(history: &Vec<AlternativeHistoryEntry>, now_rfc3339: &str) -> (r: Option<
    NavLatestFields,
>)
    ensures
        r is None <==> history@.len() == 0,
        r matches Some(f) ==> {
            let s = history@;
            let cur = s[latest_index(s)];
            &&& f.date@ == (match rfc3339_of_secs(cur.timestamp as int) {
                Some(t) => t,
                None => now_rfc3339@,
            })
            &&& f.aum@ == report_aum(cur)
            &&& f.current_apr == cur.apr
            &&& f.current_tvl_usd == cur.tvl_usd
            &&& f.previous_apr == (if s.len() >= 2 {
                s[runner_up_index(s)].apr
            } else {
                None
            })
            &&& f.previous_tvl_usd == (if s.len() >= 2 {
                s[runner_up_index(s)].tvl_usd
            } else {
                None
            })
        },
{
    let (c, p) = match latest_two_reports(history) {
        None => return None,
        Some(pair) => pair,
    };
    let cur = &history[c];
    let date = match to_rfc3339(cur.timestamp) {
        Some(t) => t,
        None => now_rfc3339.to_owned(),
    };
    let aum = match &cur.tvl_usd {
        Some(u) => u.clone(),
        None => match &cur.tvl {
            Some(t) => t.clone(),
            None => "0".to_owned(),
        },
    };
    let (previous_apr, previous_tvl_usd) = match p {
        Some(q) => (history[q].apr.clone(), history[q].tvl_usd.clone()),
        None => (None, None),
    };
    Some(
        NavLatestFields {
            date,
            aum,
            current_apr: cur.apr.clone(),
            previous_apr,
            current_tvl_usd: cur.tvl_usd.clone(),
            previous_tvl_usd,
        },
    )
}

} // verus!
