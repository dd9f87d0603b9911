//! The enumerations stored as text in the database and sent over the API,
//! with the text each one is written as and read back from.
use crate::text::str_eq;
use vstd::prelude::*;

verus! {

/// A user performance metric.
#[derive(Clone, Copy, Debug, PartialEq, Eq, Structural)]
pub enum PerformanceMetric {
    AllTimePnl,
    UnrealizedPnl,
    RealizedPnl,
}

/// The text a performance metric is written as.
pub open spec fn performance_metric_text(m: PerformanceMetric) -> Seq<char> {
    match m {
        PerformanceMetric::AllTimePnl => "all_time_pnl"@,
        PerformanceMetric::UnrealizedPnl => "unrealized_pnl"@,
        PerformanceMetric::RealizedPnl => "realized_pnl"@,
    }
}

impl PerformanceMetric {
    /// The text this value is written as.
    pub fn as_str(&self) -> (r: &'static str)
        ensures
            r@ == performance_metric_text(*self),
    {
        match self {
            PerformanceMetric::AllTimePnl => "all_time_pnl",
            PerformanceMetric::UnrealizedPnl => "unrealized_pnl",
            PerformanceMetric::RealizedPnl => "realized_pnl",
        }
    }
}

/// A period of history.
#[derive(Clone, Copy, Debug, PartialEq, Eq, Structural)]
pub enum Timeframe {
    SevenDays,
    ThirtyDays,
    OneYear,
    All,
}

/// The text a timeframe is written as.
pub open spec fn timeframe_text(t: Timeframe) -> Seq<char> {
    match t {
        Timeframe::SevenDays => "7d"@,
        Timeframe::ThirtyDays => "30d"@,
        Timeframe::OneYear => "1y"@,
        Timeframe::All => "all"@,
    }
}

/// The number of days a timeframe reaches back, `None` for all of history.
pub open spec fn timeframe_days(t: Timeframe) -> Option<i64> {
    match t {
        Timeframe::SevenDays => Some(7i64),
        Timeframe::ThirtyDays => Some(30i64),
        Timeframe::OneYear => Some(365i64),
        Timeframe::All => None,
    }
}

/// The timeframe a query text names: `7d`, `30d` and `1y` name their
/// timeframes, and every other text means all of history.
pub open spec fn timeframe_of_text(s: Seq<char>) -> Timeframe {
    if s == "7d"@ {
        Timeframe::SevenDays
    } else if s == "30d"@ {
        Timeframe::ThirtyDays
    } else if s == "1y"@ {
        Timeframe::OneYear
    } else {
        Timeframe::All
    }
}

impl Timeframe {
    /// The text this value is written as.
    pub fn as_str(&self) -> (r: &'static str)
        ensures
            r@ == timeframe_text(*self),
    {
        match self {
            Timeframe::SevenDays => "7d",
            Timeframe::ThirtyDays => "30d",
            Timeframe::OneYear => "1y",
            Timeframe::All => "all",
        }
    }

    /// The number of days the timeframe reaches back, `None` for all of history.
    pub fn to_days(&self) -> (r: Option<i64>)
        ensures
            r == timeframe_days(*self),
    {
        match self {
            Timeframe::SevenDays => Some(7),
            Timeframe::ThirtyDays => Some(30),
            Timeframe::OneYear => Some(365),
            Timeframe::All => None,
        }
    }

    /// The timeframe that a query text names (all of history for any text
    /// but `7d`, `30d` and `1y`).
    pub fn from_query(s: &str) -> (r: Timeframe)
        ensures
            r == timeframe_of_text(s@),
    {
        if str_eq(s, "7d") {
            Timeframe::SevenDays
        } else if str_eq(s, "30d") {
            Timeframe::ThirtyDays
        } else if str_eq(s, "1y") {
            Timeframe::OneYear
        } else {
            Timeframe::All
        }
    }
}

/// The kind of a user transaction.
#[derive(Clone, Copy, Debug, PartialEq, Eq, Structural)]
pub enum TransactionType {
    Deposit,
    Withdraw,
    Transfer,
    Claim,
}

/// The text a transaction type is stored as.
pub open spec fn transaction_type_text(t: TransactionType) -> Seq<char> {
    match t {
        TransactionType::Deposit => "deposit"@,
        TransactionType::Withdraw => "withdraw"@,
        TransactionType::Transfer => "transfer"@,
        TransactionType::Claim => "claim"@,
    }
}

impl TransactionType {
    /// The text this value is written as.
    pub fn as_str(&self) -> (r: &'static str)
        ensures
            r@ == transaction_type_text(*self),
    {
        match self {
            TransactionType::Deposit => "deposit",
            TransactionType::Withdraw => "withdraw",
            TransactionType::Transfer => "transfer",
            TransactionType::Claim => "claim",
        }
    }

    /// The transaction type written as `s`, if any.
    pub fn parse(s: &str) -> (r: Option<TransactionType>)
        ensures
            r matches Some(t) ==> transaction_type_text(t) == s@,
            r is None ==> forall|t: TransactionType| transaction_type_text(t) != s@,
    {
        if str_eq(s, "deposit") {
            Some(TransactionType::Deposit)
        } else if str_eq(s, "withdraw") {
            Some(TransactionType::Withdraw)
        } else if str_eq(s, "transfer") {
            Some(TransactionType::Transfer)
        } else if str_eq(s, "claim") {
            Some(TransactionType::Claim)
        } else {
            proof {
                assert forall|t: TransactionType| transaction_type_text(t) != s@ by {
                    match t {
                        TransactionType::Deposit => {},
                        TransactionType::Withdraw => {},
                        TransactionType::Transfer => {},
                        TransactionType::Claim => {},
                    }
                }
            }
            None
        }
    }
}

/// The status of a user transaction.
#[derive(Clone, Copy, Debug, PartialEq, Eq, Structural)]
pub enum TransactionStatus {
    Pending,
    Confirmed,
    Failed,
    Cancelled,
}

/// The text a transaction status is stored as.
pub open spec fn transaction_status_text(t: TransactionStatus) -> Seq<char> {
    match t {
        TransactionStatus::Pending => "pending"@,
        TransactionStatus::Confirmed => "confirmed"@,
        TransactionStatus::Failed => "failed"@,
        TransactionStatus::Cancelled => "cancelled"@,
    }
}

impl TransactionStatus {
    /// The text this value is written as.
    pub fn as_str(&self) -> (r: &'static str)
        ensures
            r@ == transaction_status_text(*self),
    {
        match self {
            TransactionStatus::Pending => "pending",
            TransactionStatus::Confirmed => "confirmed",
            TransactionStatus::Failed => "failed",
            TransactionStatus::Cancelled => "cancelled",
        }
    }

    /// The transaction status written as `s`, if any.
    pub fn parse(s: &str) -> (r: Option<TransactionStatus>)
        ensures
            r matches Some(t) ==> transaction_status_text(t) == s@,
            r is None ==> forall|t: TransactionStatus| transaction_status_text(t) != s@,
    {
        if str_eq(s, "pending") {
            Some(TransactionStatus::Pending)
        } else if str_eq(s, "confirmed") {
            Some(TransactionStatus::Confirmed)
        } else if str_eq(s, "failed") {
            Some(TransactionStatus::Failed)
        } else if str_eq(s, "cancelled") {
            Some(TransactionStatus::Cancelled)
        } else {
            proof {
                assert forall|t: TransactionStatus| transaction_status_text(t) != s@ by {
                    match t {
                        TransactionStatus::Pending => {},
                        TransactionStatus::Confirmed => {},
                        TransactionStatus::Failed => {},
                        TransactionStatus::Cancelled => {},
                    }
                }
            }
            None
        }
    }
}

/// The status of a vault's indexer.
#[derive(Clone, Copy, Debug, PartialEq, Eq, Structural)]
pub enum IndexerStatus {
    Active,
    Paused,
    Error,
    Synced,
}

/// The text an indexer status is stored as.
pub open spec fn indexer_status_text(t: IndexerStatus) -> Seq<char> {
    match t {
        IndexerStatus::Active => "active"@,
        IndexerStatus::Paused => "paused"@,
        IndexerStatus::Error => "error"@,
        IndexerStatus::Synced => "synced"@,
    }
}

/// `s` is the text of some indexer status.
pub open spec fn is_indexer_status_text(s: Seq<char>) -> bool {
    exists|t: IndexerStatus| indexer_status_text(t) == s
}

impl IndexerStatus {
    /// The text stored in the database.
    pub fn as_str(&self) -> (r: &'static str)
        ensures
            r@ == indexer_status_text(*self),
    {
        match self {
            IndexerStatus::Active => "active",
            IndexerStatus::Paused => "paused",
            IndexerStatus::Error => "error",
            IndexerStatus::Synced => "synced",
        }
    }

    /// The indexer status written as `s`, if any.
    pub fn parse(s: &str) -> (r: Option<IndexerStatus>)
        ensures
            r matches Some(t) ==> indexer_status_text(t) == s@,
            r is None <==> !is_indexer_status_text(s@),
    {
        let r = if str_eq(s, "active") {
            Some(IndexerStatus::Active)
        } else if str_eq(s, "paused") {
            Some(IndexerStatus::Paused)
        } else if str_eq(s, "error") {
            Some(IndexerStatus::Error)
        } else if str_eq(s, "synced") {
            Some(IndexerStatus::Synced)
        } else {
            proof {
                assert forall|t: IndexerStatus| indexer_status_text(t) != s@ by {
                    match t {
                        IndexerStatus::Active => {},
                        IndexerStatus::Paused => {},
                        IndexerStatus::Error => {},
                        IndexerStatus::Synced => {},
                    }
                }
            }
            None
        };
        proof {
            if let Some(t) = r {
                assert(indexer_status_text(t) == s@);
            }
        }
        r
    }

    /// The indexer status written as `s`, which must be the text of one.
    pub fn from(s: &str) -> (r: IndexerStatus)
        requires
            is_indexer_status_text(s@),
        ensures
            indexer_status_text(r) == s@,
    {
        match IndexerStatus::parse(s) {
            Some(t) => t,
            None => {
                proof {
                    assert(false);
                }
                IndexerStatus::Active
            },
        }
    }
}

/// The currency values are shown in.
#[derive(Clone, Copy, Debug, PartialEq, Eq, Structural)]
pub enum DisplayCurrency {
    USD,
    USDC,
}

/// The status of a deposit request.
#[derive(Clone, Copy, Debug, PartialEq, Eq, Structural)]
pub enum DepositRequestStatus {
    Pending,
    Submitted,
    Failed,
}

/// The text a deposit request status is stored as.
pub open spec fn deposit_request_status_text(t: DepositRequestStatus) -> Seq<char> {
    match t {
        DepositRequestStatus::Pending => "pending"@,
        DepositRequestStatus::Submitted => "submitted"@,
        DepositRequestStatus::Failed => "failed"@,
    }
}

impl DepositRequestStatus {
    /// The text this value is written as.
    pub fn as_str(self) -> (r: &'static str)
        ensures
            r@ == deposit_request_status_text(self),
    {
        match self {
            DepositRequestStatus::Pending => "pending",
            DepositRequestStatus::Submitted => "submitted",
            DepositRequestStatus::Failed => "failed",
        }
    }
}

/// Each indexer status is read back from its text.
pub proof fn lemma_indexer_status_text_injective(a: IndexerStatus, b: IndexerStatus)
    ensures
        indexer_status_text(a) == indexer_status_text(b) ==> a == b,
{
    reveal_strlit("active");
    reveal_strlit("paused");
    reveal_strlit("error");
    reveal_strlit("synced");
    if indexer_status_text(a) == indexer_status_text(b) {
        let ta = indexer_status_text(a);
        let tb = indexer_status_text(b);
        assert(ta.len() == tb.len());
        assert(ta[0] == tb[0]);
    }
}

/// Each transaction type is read back from its text.
pub proof fn lemma_transaction_type_text_injective(a: TransactionType, b: TransactionType)
    ensures
        transaction_type_text(a) == transaction_type_text(b) ==> a == b,
{
    reveal_strlit("deposit");
    reveal_strlit("withdraw");
    reveal_strlit("transfer");
    reveal_strlit("claim");
    if transaction_type_text(a) == transaction_type_text(b) {
        let ta = transaction_type_text(a);
        let tb = transaction_type_text(b);
        assert(ta.len() == tb.len());
        assert(ta[0] == tb[0]);
    }
}

/// Each transaction status is read back from its text.
pub proof fn lemma_transaction_status_text_injective(a: TransactionStatus, b: TransactionStatus)
    ensures
        transaction_status_text(a) == transaction_status_text(b) ==> a == b,
{
    reveal_strlit("pending");
    reveal_strlit("confirmed");
    reveal_strlit("failed");
    reveal_strlit("cancelled");
    if transaction_status_text(a) == transaction_status_text(b) {
        let ta = transaction_status_text(a);
        let tb = transaction_status_text(b);
        assert(ta.len() == tb.len());
        assert(ta[0] == tb[0]);
        assert(ta[1] == tb[1]);
    }
}

/// Each timeframe is read back from the text it is written as.
pub proof fn lemma_timeframe_text_round_trip(t: Timeframe)
    ensures
        timeframe_of_text(timeframe_text(t)) == t,
{
    reveal_strlit("7d");
    reveal_strlit("30d");
    reveal_strlit("1y");
    reveal_strlit("all");
    let s = timeframe_text(t);
    match t {
        Timeframe::SevenDays => {},
        Timeframe::ThirtyDays => {
            assert(s[0] != '7');
        },
        Timeframe::OneYear => {
            assert(s.len() != "30d"@.len() || s[0] != '3');
            assert(s[0] != '7');
        },
        Timeframe::All => {
            assert(s[0] != '7');
            assert(s[0] != '3');
            assert(s[0] != '1');
        },
    }
}

} // verus!
