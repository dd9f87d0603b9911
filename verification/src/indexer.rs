//! What the vault indexer decides: the status of an indexer state and the
//! changes written to it, the block to resume from, and the transaction and
//! position records that a deposit or a redeem request produces.
use crate::decimal::{
    decimal_checked_add, decimal_checked_div, decimal_checked_sub, pow10, value_lt, zero_view, Dec,
    DecView,
};
use crate::models::{
    IndexerState, IndexerStateUpdate, NewIndexerState, NewUserPosition, NewUserTransaction,
    UserPosition, UserPositionUpdate,
};
use crate::time::Timestamp;
use crate::types::{
    indexer_status_text, is_indexer_status_text, lemma_indexer_status_text_injective,
    transaction_status_text, transaction_type_text, IndexerStatus, TransactionStatus,
    TransactionType,
};
use vstd::prelude::*;

verus! {

// ---------------------------------------------------------------------------
// Indexer state

/// The state's status text is `t`'s.
pub open spec fn status_is(st: &IndexerState, t: IndexerStatus) -> bool {
    st.status matches Some(s) && s@ == indexer_status_text(t)
}

/// The state holds no status, or the text of one.
pub open spec fn has_valid_status(st: &IndexerState) -> bool {
    st.status matches Some(s) ==> is_indexer_status_text(s@)
}

/// The state after `u` is written to it: each field that `u` holds replaces
/// the state's.
pub open spec fn apply_indexer_update(st: IndexerState, u: IndexerStateUpdate) -> IndexerState {
    IndexerState {
        id: st.id,
        vault_id: st.vault_id,
        last_processed_block: match u.last_processed_block {
            Some(b) => b,
            None => st.last_processed_block,
        },
        last_processed_timestamp: if u.last_processed_timestamp is Some {
            u.last_processed_timestamp
        } else {
            st.last_processed_timestamp
        },
        last_error: if u.last_error is Some {
            u.last_error
        } else {
            st.last_error
        },
        last_error_at: if u.last_error_at is Some {
            u.last_error_at
        } else {
            st.last_error_at
        },
        status: if u.status is Some {
            u.status
        } else {
            st.status
        },
        created_at: st.created_at,
        updated_at: if u.updated_at is Some {
            u.updated_at
        } else {
            st.updated_at
        },
    }
}

fn status_string(t: IndexerStatus) -> (r: String)
    ensures
        r@ == indexer_status_text(t),
{
    t.as_str().to_owned()
}

impl IndexerState {
    /// The status, read from its text.
    pub fn status_enum(&self) -> (r: Option<IndexerStatus>)
        requires
            has_valid_status(self),
        ensures
            r is None <==> self.status is None,
            r matches Some(t) ==> status_is(self, t),
    {
        match &self.status {
            Some(s) => Some(IndexerStatus::from(s.as_str())),
            None => None,
        }
    }

    /// Writes `status` as the state's status text.
    pub fn set_status_enum(&mut self, status: IndexerStatus)
        ensures
            status_is(final(self), status),
            final(self).id == old(self).id,
            final(self).vault_id == old(self).vault_id,
            final(self).last_processed_block == old(self).last_processed_block,
            final(self).last_processed_timestamp == old(self).last_processed_timestamp,
            final(self).last_error == old(self).last_error,
            final(self).last_error_at == old(self).last_error_at,
            final(self).created_at == old(self).created_at,
            final(self).updated_at == old(self).updated_at,
    {
        self.status = Some(status_string(status));
    }

    fn status_equals(&self, t: IndexerStatus) -> (r: bool)
        requires
            has_valid_status(self),
        ensures
            r == status_is(self, t),
    {
        match self.status_enum() {
            Some(s) => {
                proof {
                    lemma_indexer_status_text_injective(s, t);
                }
                s == t
            },
            None => false,
        }
    }

    /// The indexer is in error.
    pub fn is_error(&self) -> (r: bool)
        requires
            has_valid_status(self),
        ensures
            r == status_is(self, IndexerStatus::Error),
    {
        self.status_equals(IndexerStatus::Error)
    }

    /// The indexer is running.
    pub fn is_running(&self) -> (r: bool)
        requires
            has_valid_status(self),
        ensures
            r == status_is(self, IndexerStatus::Active),
    {
        self.status_equals(IndexerStatus::Active)
    }

    /// The indexer has reached the tip of the chain.
    pub fn is_synced(&self) -> (r: bool)
        requires
            has_valid_status(self),
        ensures
            r == status_is(self, IndexerStatus::Synced),
    {
        self.status_equals(IndexerStatus::Synced)
    }

    /// The change written to an existing state by an upsert: the block, the
    /// timestamp, the status text when a status is given, no error fields,
    /// and `now` as the update time.
    pub fn upsert_update(
        last_processed_block: i64,
        last_processed_timestamp: Option<Timestamp>,
        status: Option<IndexerStatus>,
        now: Timestamp,
    ) -> (r: IndexerStateUpdate)
        ensures
            r.last_processed_block == Some(last_processed_block),
            r.last_processed_timestamp == last_processed_timestamp,
            r.status is Some <==> status is Some,
            r.status matches Some(s) ==> s@ == indexer_status_text(status->0),
            r.last_error is None,
            r.last_error_at is None,
            r.updated_at == Some(now),
    {
        IndexerStateUpdate {
            last_processed_block: Some(last_processed_block),
            last_processed_timestamp,
            status: match status {
                Some(t) => Some(status_string(t)),
                None => None,
            },
            last_error: None,
            last_error_at: None,
            updated_at: Some(now),
        }
    }

    /// The state an upsert inserts when the vault has none.
    pub fn upsert_new(
        vault_id: String,
        last_processed_block: i64,
        last_processed_timestamp: Option<Timestamp>,
        status: Option<IndexerStatus>,
    ) -> (r: NewIndexerState)
        ensures
            r.vault_id == vault_id,
            r.last_processed_block == last_processed_block,
            r.last_processed_timestamp == last_processed_timestamp,
            r.last_error is None,
            r.last_error_at is None,
            r.status is Some <==> status is Some,
            r.status matches Some(s) ==> s@ == indexer_status_text(status->0),
    {
        NewIndexerState {
            vault_id,
            last_processed_block,
            last_processed_timestamp,
            last_error: None,
            last_error_at: None,
            status: match status {
                Some(t) => Some(status_string(t)),
                None => None,
            },
        }
    }

    /// The change that records a processed block: a synced indexer stays
    /// synced, any other becomes active.
    pub fn status_preserving_update(
        &self,
        last_processed_block: i64,
        last_processed_timestamp: Option<Timestamp>,
        now: Timestamp,
    ) -> (r: IndexerStateUpdate)
        requires
            has_valid_status(self),
        ensures
            r.last_processed_block == Some(last_processed_block),
            r.last_processed_timestamp == last_processed_timestamp,
            r.status matches Some(s) && s@ == indexer_status_text(
                if status_is(self, IndexerStatus::Synced) {
                    IndexerStatus::Synced
                } else {
                    IndexerStatus::Active
                },
            ),
            r.last_error is None,
            r.last_error_at is None,
            r.updated_at == Some(now),
    {
        let new_status = if self.is_synced() {
            IndexerStatus::Synced
        } else {
            IndexerStatus::Active
        };
        IndexerStateUpdate {
            last_processed_block: Some(last_processed_block),
            last_processed_timestamp,
            status: Some(status_string(new_status)),
            last_error: None,
            last_error_at: None,
            updated_at: Some(now),
        }
    }

    /// The change that records an error.
    pub fn error_update(error_message: String, now: Timestamp) -> (r: IndexerStateUpdate)
        ensures
            r.last_error == Some(error_message),
            r.last_error_at == Some(now),
            r.status matches Some(s) && s@ == indexer_status_text(IndexerStatus::Error),
            r.updated_at == Some(now),
            r.last_processed_block is None,
            r.last_processed_timestamp is None,
    {
        IndexerStateUpdate {
            last_processed_block: None,
            last_processed_timestamp: None,
            last_error: Some(error_message),
            last_error_at: Some(now),
            status: Some(status_string(IndexerStatus::Error)),
            updated_at: Some(now),
        }
    }

    /// The change that marks the indexer synced.
    pub fn synced_update(now: Timestamp) -> (r: IndexerStateUpdate)
        ensures
            r.status matches Some(s) && s@ == indexer_status_text(IndexerStatus::Synced),
            r.updated_at == Some(now),
            r.last_processed_block is None,
            r.last_processed_timestamp is None,
            r.last_error is None,
            r.last_error_at is None,
    {
        IndexerStateUpdate {
            last_processed_block: None,
            last_processed_timestamp: None,
            last_error: None,
            last_error_at: None,
            status: Some(status_string(IndexerStatus::Synced)),
            updated_at: Some(now),
        }
    }
}

/// The block an indexer starts from: the configured block when the vault has
/// no state; the last processed block again after an error (to retry it);
/// else the block after the last processed one. The block is the stored
/// `i64` read as `u64`.
pub open spec fn resume_block_spec(state: Option<&IndexerState>, configured: u64) -> u64 {
    match state {
        None => configured,
        Some(s) => if status_is(s, IndexerStatus::Error) {
            s.last_processed_block as u64
        } else {
            (s.last_processed_block + 1) as u64
        },
    }
}

/// The block an indexer resumes from.
pub fn resume_block(state: Option<&IndexerState>, configured: u64) -> (r: u64)
    requires
        state matches Some(s) ==> has_valid_status(s),
        state matches Some(s) ==> (status_is(s, IndexerStatus::Error)
            || s.last_processed_block < i64::MAX),
    ensures
        r == resume_block_spec(state, configured),
{
    match state {
        None => configured,
        Some(s) => if s.is_error() {
            s.last_processed_block as u64
        } else {
            (s.last_processed_block + 1) as u64
        },
    }
}

/// Every indexer state is synced (the KPI service waits for this).
pub fn all_synced(states: &Vec<IndexerState>) -> (r: bool)
    requires
        forall|i: int| 0 <= i < states.len() ==> has_valid_status(&#[trigger] states[i]),
    ensures
        r == forall|i: int| 0 <= i < states.len() ==> status_is(&#[trigger] states[i], IndexerStatus::Synced),
{
    let mut i: usize = 0;
    while i < states.len()
        invariant
            i <= states.len(),
            forall|j: int| 0 <= j < states.len() ==> has_valid_status(&#[trigger] states[j]),
            forall|j: int| 0 <= j < i ==> status_is(&#[trigger] states[j], IndexerStatus::Synced),
        decreases states.len() - i,
    {
        if !states[i].is_synced() {
            return false;
        }
        i = i + 1;
    }
    true
}

/// An error recorded on any state leaves it in error.
pub proof fn lemma_recorded_error_is_error(st: IndexerState, msg: String, now: Timestamp, u: IndexerStateUpdate)
    requires
        u.last_error == Some(msg),
        u.last_error_at == Some(now),
        u.status matches Some(s) && s@ == indexer_status_text(IndexerStatus::Error),
        u.updated_at == Some(now),
        u.last_processed_block is None,
        u.last_processed_timestamp is None,
    ensures
        status_is(&apply_indexer_update(st, u), IndexerStatus::Error),
        apply_indexer_update(st, u).last_error == Some(msg),
        apply_indexer_update(st, u).last_processed_block == st.last_processed_block,
{
}

/// Recording a processed block keeps a synced indexer synced and makes any
/// other indexer active, and stores the block.
pub proof fn lemma_processed_block_preserves_synced(
    st: IndexerState,
    block: i64,
    u: IndexerStateUpdate,
)
    requires
        has_valid_status(&st),
        u.last_processed_block == Some(block),
        u.status matches Some(s) && s@ == indexer_status_text(
            if status_is(&st, IndexerStatus::Synced) {
                IndexerStatus::Synced
            } else {
                IndexerStatus::Active
            },
        ),
    ensures
        status_is(&st, IndexerStatus::Synced) ==> status_is(
            &apply_indexer_update(st, u),
            IndexerStatus::Synced,
        ),
        !status_is(&st, IndexerStatus::Synced) ==> status_is(
            &apply_indexer_update(st, u),
            IndexerStatus::Active,
        ),
        apply_indexer_update(st, u).last_processed_block == block,
{
}

/// The status written as a state's status text is the one read back from it.
pub proof fn lemma_status_read_back(st: IndexerState, t: IndexerStatus, other: IndexerStatus)
    requires
        status_is(&st, t),
    ensures
        has_valid_status(&st),
        status_is(&st, other) ==> other == t,
{
    lemma_indexer_status_text_injective(t, other);
}

/// After an error is recorded, the indexer resumes from its last processed
/// block, to process it again.
pub proof fn lemma_resume_after_error(
    st: IndexerState,
    msg: String,
    now: Timestamp,
    u: IndexerStateUpdate,
    configured: u64,
)
    requires
        u.last_error == Some(msg),
        u.last_error_at == Some(now),
        u.status matches Some(s) && s@ == indexer_status_text(IndexerStatus::Error),
        u.updated_at == Some(now),
        u.last_processed_block is None,
        u.last_processed_timestamp is None,
    ensures
        resume_block_spec(Some(&apply_indexer_update(st, u)), configured)
            == st.last_processed_block as u64,
{
}

/// After block `block` is recorded as processed, the indexer resumes from
/// the block after it.
pub proof fn lemma_resume_after_processed_block(
    st: IndexerState,
    block: i64,
    u: IndexerStateUpdate,
    configured: u64,
)
    requires
        has_valid_status(&st),
        u.last_processed_block == Some(block),
        u.status matches Some(s) && s@ == indexer_status_text(
            if status_is(&st, IndexerStatus::Synced) {
                IndexerStatus::Synced
            } else {
                IndexerStatus::Active
            },
        ),
    ensures
        resume_block_spec(Some(&apply_indexer_update(st, u)), configured) == (block + 1) as u64,
{
    let after = apply_indexer_update(st, u);
    if status_is(&st, IndexerStatus::Synced) {
        lemma_indexer_status_text_injective(IndexerStatus::Synced, IndexerStatus::Error);
    } else {
        lemma_indexer_status_text_injective(IndexerStatus::Active, IndexerStatus::Error);
    }
    assert(!status_is(&after, IndexerStatus::Error));
}

/// What an upsert writes: a change to the vault's existing state, or a new
/// state.
pub enum IndexerStateChange {
    Update(IndexerStateUpdate),
    Create(NewIndexerState),
}

/// Where a vault's indexer stands while it runs: the block it is at and the
/// time of the last block it processed.
pub struct VaultState {
    pub vault_id: String,
    pub current_block: u64,
    pub current_timestamp: Option<Timestamp>,
}

impl VaultState {
    /// An indexer of `vault_id` standing at `current_block`.
    pub fn new(vault_id: String, current_block: u64) -> (r: VaultState)
        ensures
            r.vault_id == vault_id,
            r.current_block == current_block,
            r.current_timestamp is None,
    {
        VaultState { vault_id, current_block, current_timestamp: None }
    }

    /// Moves to the block to resume from, given the vault's stored state (the
    /// block it stands at is kept when there is none).
    pub fn load_last_processed_block(&mut self, state: Option<&IndexerState>)
        requires
            state matches Some(s) ==> has_valid_status(s),
            state matches Some(s) ==> (status_is(s, IndexerStatus::Error)
                || s.last_processed_block < i64::MAX),
        ensures
            final(self).current_block == resume_block_spec(state, old(self).current_block),
            final(self).vault_id == old(self).vault_id,
            final(self).current_timestamp == old(self).current_timestamp,
    {
        self.current_block = resume_block(state, self.current_block);
    }

    /// The change that records the indexer as active at the block it stands
    /// at, without a timestamp: an update of the vault's stored state, or a
    /// new state.
    pub fn initialize_indexer_state(&self, existing: bool, now: Timestamp) -> (r: IndexerStateChange)
        requires
            self.current_block <= i64::MAX,
        ensures
            existing ==> {
                &&& r matches IndexerStateChange::Update(u)
                &&& r->Update_0.last_processed_block == Some(self.current_block as i64)
                &&& r->Update_0.last_processed_timestamp is None
                &&& r->Update_0.status matches Some(t) && t@ == indexer_status_text(
                    IndexerStatus::Active,
                )
                &&& r->Update_0.last_error is None
                &&& r->Update_0.last_error_at is None
                &&& r->Update_0.updated_at == Some(now)
            },
            !existing ==> {
                &&& r matches IndexerStateChange::Create(n)
                &&& r->Create_0.vault_id == self.vault_id
                &&& r->Create_0.last_processed_block == self.current_block as i64
                &&& r->Create_0.last_processed_timestamp is None
                &&& r->Create_0.status matches Some(t) && t@ == indexer_status_text(
                    IndexerStatus::Active,
                )
                &&& r->Create_0.last_error is None
                &&& r->Create_0.last_error_at is None
            },
    {
        let block = self.current_block as i64;
        if existing {
            IndexerStateChange::Update(
                IndexerState::upsert_update(block, None, Some(IndexerStatus::Active), now),
            )
        } else {
            IndexerStateChange::Create(
                IndexerState::upsert_new(
                    self.vault_id.clone(),
                    block,
                    None,
                    Some(IndexerStatus::Active),
                ),
            )
        }
    }

    /// Records that `block_number`, of time `block_timestamp`, was processed.
    pub fn record_processed_block(&mut self, block_number: u64, block_timestamp: Timestamp)
        ensures
            final(self).current_block == block_number,
            final(self).current_timestamp == Some(block_timestamp),
            final(self).vault_id == old(self).vault_id,
    {
        self.current_block = block_number;
        self.current_timestamp = Some(block_timestamp);
    }
}

// ---------------------------------------------------------------------------
// Deposits and redeem requests

/// The share price of an event: `assets / shares` when `shares > 0`.
pub open spec fn share_price_spec(assets: DecView, shares: DecView) -> Option<Option<DecView>> {
    if shares.0 > 0 {
        match decimal_checked_div(assets, shares) {
            None => None,
            Some(p) => Some(Some(p)),
        }
    } else {
        Some(None)
    }
}

/// The share price an event implies: `assets / shares` when some shares
/// moved, else none.
pub fn share_price_at(assets: Dec, shares: Dec) -> (r: Option<Dec>)
    requires
        share_price_spec(assets@, shares@) is Some,
    ensures
        r is Some <==> share_price_spec(assets@, shares@)->0 is Some,
        r matches Some(p) ==> p@ == share_price_spec(assets@, shares@)->0->0,
{
    if shares.is_positive() {
        match assets.checked_div(&shares) {
            Some(p) => Some(p),
            None => {
                proof {
                    assert(false);
                }
                None
            },
        }
    } else {
        None
    }
}

/// `share_price_at` where the division does not overflow, `None` where it would.
pub fn try_share_price_at(assets: Dec, shares: Dec) -> (r: Option<Option<Dec>>)
    ensures
        r is Some <==> share_price_spec(assets@, shares@) is Some,
        r matches Some(o) ==> (o is Some <==> share_price_spec(assets@, shares@)->0 is Some),
        r matches Some(Some(p)) ==> p@ == share_price_spec(assets@, shares@)->0->0,
{
    if shares.is_positive() && assets.checked_div(&shares).is_none() {
        None
    } else {
        Some(share_price_at(assets, shares))
    }
}

fn text_of(s: &str) -> (r: String)
    ensures
        r@ == s@,
{
    s.to_owned()
}

/// The transaction record of a deposit: type `deposit`, status `confirmed`,
/// the assets as amount and the shares as shares amount.
pub fn deposit_transaction(
    tx_hash: String,
    block_number: u64,
    block_timestamp: Timestamp,
    user_address: String,
    vault_id: String,
    assets: Dec,
    shares: Dec,
    share_price: Option<Dec>,
) -> (r: NewUserTransaction)
    requires
        block_number <= i64::MAX,
    ensures
        r.tx_hash == tx_hash,
        r.block_number == block_number as i64,
        r.block_timestamp == block_timestamp,
        r.user_address == user_address,
        r.vault_id == vault_id,
        r.type_@ == transaction_type_text(TransactionType::Deposit),
        r.status@ == transaction_status_text(TransactionStatus::Confirmed),
        r.amount == assets,
        r.shares_amount == Some(shares),
        r.share_price == share_price,
        r.gas_fee is None,
        r.metadata is None,
{
    NewUserTransaction {
        tx_hash,
        block_number: block_number as i64,
        block_timestamp,
        user_address,
        vault_id,
        type_: text_of(TransactionType::Deposit.as_str()),
        status: text_of(TransactionStatus::Confirmed.as_str()),
        amount: assets,
        shares_amount: Some(shares),
        share_price,
        gas_fee: None,
        metadata: None,
    }
}

/// The transaction record of a redeem request: type `withdraw`, status
/// `confirmed`, the assets as amount, and metadata holding the redeem id,
/// the epoch and the receiver.
pub fn redeem_transaction(
    tx_hash: String,
    block_number: u64,
    block_timestamp: Timestamp,
    user_address: String,
    vault_id: String,
    assets: Dec,
    shares: Dec,
    share_price: Option<Dec>,
    redeem_id: String,
    epoch: String,
    receiver: String,
) -> (r: NewUserTransaction)
    requires
        block_number <= i64::MAX,
    ensures
        r.tx_hash == tx_hash,
        r.block_number == block_number as i64,
        r.block_timestamp == block_timestamp,
        r.user_address == user_address,
        r.vault_id == vault_id,
        r.type_@ == transaction_type_text(TransactionType::Withdraw),
        r.status@ == transaction_status_text(TransactionStatus::Confirmed),
        r.amount == assets,
        r.shares_amount == Some(shares),
        r.share_price == share_price,
        r.gas_fee is None,
        r.metadata matches Some(m) && m@.len() == 3 && m@[0].0@ == "redeem_id"@ && m@[0].1
            == redeem_id && m@[1].0@ == "epoch"@ && m@[1].1 == epoch && m@[2].0@
            == "receiver"@ && m@[2].1 == receiver,
{
    let mut metadata: Vec<(String, String)> = Vec::new();
    metadata.push((text_of("redeem_id"), redeem_id));
    metadata.push((text_of("epoch"), epoch));
    metadata.push((text_of("receiver"), receiver));
    NewUserTransaction {
        tx_hash,
        block_number: block_number as i64,
        block_timestamp,
        user_address,
        vault_id,
        type_: text_of(TransactionType::Withdraw.as_str()),
        status: text_of(TransactionStatus::Confirmed.as_str()),
        amount: assets,
        shares_amount: Some(shares),
        share_price,
        gas_fee: None,
        metadata: Some(metadata),
    }
}

/// What a deposit does to a position: an update of the existing one, or a
/// new one.
pub enum PositionChange {
    Update(UserPositionUpdate),
    Create(NewUserPosition),
}

/// The sums a deposit into `existing` computes do not overflow.
pub open spec fn deposit_fits(existing: Option<&UserPosition>, shares: DecView, assets: DecView) -> bool {
    existing matches Some(p) ==> {
        &&& decimal_checked_add(p.share_balance@, shares) is Some
        &&& decimal_checked_add(p.cost_basis@, assets) is Some
    }
}

/// `r` is the position change of a deposit of `assets` for `shares` into
/// `existing`: an update adding the shares to the balance and the assets to
/// the cost basis, or a new position holding just them.
pub open spec fn deposit_change_is(
    r: PositionChange,
    existing: Option<&UserPosition>,
    user_address: String,
    vault_id: String,
    shares: Dec,
    assets: Dec,
    block_timestamp: Timestamp,
    now: Timestamp,
) -> bool {
    match existing {
        Some(p) => {
            &&& r matches PositionChange::Update(u)
            &&& r->Update_0.share_balance matches Some(b)
            &&& b@ == decimal_checked_add(p.share_balance@, shares@)->0
            &&& r->Update_0.cost_basis matches Some(c)
            &&& c@ == decimal_checked_add(p.cost_basis@, assets@)->0
            &&& r->Update_0.last_activity_at == Some(block_timestamp)
            &&& r->Update_0.updated_at == Some(now)
        },
        None => {
            &&& r matches PositionChange::Create(n)
            &&& r->Create_0.user_address == user_address
            &&& r->Create_0.vault_id == vault_id
            &&& r->Create_0.share_balance == shares
            &&& r->Create_0.cost_basis == assets
            &&& r->Create_0.first_deposit_at == Some(block_timestamp)
            &&& r->Create_0.last_activity_at == Some(block_timestamp)
        },
    }
}

/// The position change of a deposit of `assets` for `shares`: an existing
/// position gains the shares and the assets as cost basis; else a position
/// holding just them is created, first and last active at the block time.
pub fn deposit_position_change(
    existing: Option<&UserPosition>,
    user_address: String,
    vault_id: String,
    shares: Dec,
    assets: Dec,
    block_timestamp: Timestamp,
    now: Timestamp,
) -> (r: PositionChange)
    requires
        deposit_fits(existing, shares@, assets@),
    ensures
        deposit_change_is(r, existing, user_address, vault_id, shares, assets, block_timestamp, now),
{
    match existing {
        Some(p) => {
            let balance = p.share_balance.checked_add(&shares);
            let cost = p.cost_basis.checked_add(&assets);
            match (balance, cost) {
                (Some(b), Some(c)) => PositionChange::Update(
                    UserPositionUpdate {
                        share_balance: Some(b),
                        cost_basis: Some(c),
                        last_activity_at: Some(block_timestamp),
                        updated_at: Some(now),
                    },
                ),
                _ => {
                    proof {
                        assert(false);
                    }
                    PositionChange::Update(
                        UserPositionUpdate {
                            share_balance: None,
                            cost_basis: None,
                            last_activity_at: None,
                            updated_at: None,
                        },
                    )
                },
            }
        },
        None => PositionChange::Create(
            NewUserPosition {
                user_address,
                vault_id,
                share_balance: shares,
                cost_basis: assets,
                first_deposit_at: Some(block_timestamp),
                last_activity_at: Some(block_timestamp),
            },
        ),
    }
}

/// `deposit_position_change` where the sums do not overflow, `None` where
/// they would.
pub fn try_deposit_position_change(
    existing: Option<&UserPosition>,
    user_address: String,
    vault_id: String,
    shares: Dec,
    assets: Dec,
    block_timestamp: Timestamp,
    now: Timestamp,
) -> (r: Option<PositionChange>)
    ensures
        r is Some <==> deposit_fits(existing, shares@, assets@),
        r matches Some(c) ==> deposit_change_is(
            c,
            existing,
            user_address,
            vault_id,
            shares,
            assets,
            block_timestamp,
            now,
        ),
{
    let fits = match existing {
        Some(p) => p.share_balance.checked_add(&shares).is_some() && p.cost_basis.checked_add(
            &assets,
        ).is_some(),
        None => true,
    };
    if fits {
        Some(
            deposit_position_change(
                existing,
                user_address,
                vault_id,
                shares,
                assets,
                block_timestamp,
                now,
            ),
        )
    } else {
        None
    }
}

/// The share balance after a redeem request for `shares`: the difference,
/// or zero where it would be negative.
pub open spec fn redeemed_balance(balance: DecView, shares: DecView) -> Option<DecView> {
    match decimal_checked_sub(balance, shares) {
        None => None,
        Some(d) => if value_lt(d, zero_view()) {
            Some(zero_view())
        } else {
            Some(d)
        },
    }
}

/// An event implies a share price exactly when some shares moved, and that
/// price is `assets / shares`.
pub proof fn lemma_share_price_is_assets_per_share(assets: DecView, shares: DecView)
    ensures
        shares.0 <= 0 ==> share_price_spec(assets, shares) == Some(None::<DecView>),
        shares.0 > 0 ==> share_price_spec(assets, shares) == match decimal_checked_div(
            assets,
            shares,
        ) {
            None => None,
            Some(p) => Some(Some(p)),
        },
{
}

/// A redeem request leaves the balance less the redeemed shares, or zero
/// where that difference is negative.
pub proof fn lemma_redeem_leaves_difference_or_zero(balance: DecView, shares: DecView)
    ensures
        decimal_checked_sub(balance, shares) is None ==> redeemed_balance(balance, shares) is None,
        decimal_checked_sub(balance, shares) matches Some(d) ==> redeemed_balance(balance, shares)
            == Some(
            if d.0 < 0 {
                zero_view()
            } else {
                d
            },
        ),
{
    if let Some(d) = decimal_checked_sub(balance, shares) {
        assert(pow10(0) == 1);
        let p = pow10(d.1);
        assert(d.0 * 1 == d.0 && 0 * p == 0) by (nonlinear_arith);
    }
}

/// The position update of a redeem request for `shares`: the balance drops
/// by the shares but not below zero; the cost basis is left as it is.
pub fn redeem_position_update(
    position: &UserPosition,
    shares: Dec,
    block_timestamp: Timestamp,
    now: Timestamp,
) -> (r: UserPositionUpdate)
    requires
        redeemed_balance(position.share_balance@, shares@) is Some,
    ensures
        r.share_balance matches Some(b) && b@ == redeemed_balance(
            position.share_balance@,
            shares@,
        )->0,
        r.share_balance matches Some(b) && b@.0 >= 0,
        r.cost_basis is None,
        r.last_activity_at == Some(block_timestamp),
        r.updated_at == Some(now),
{
    let diff = match position.share_balance.checked_sub(&shares) {
        Some(d) => d,
        None => {
            proof {
                assert(false);
            }
            Dec::zero()
        },
    };
    let balance = if diff.is_negative() {
        Dec::zero()
    } else {
        diff
    };
    UserPositionUpdate {
        share_balance: Some(balance),
        cost_basis: None,
        last_activity_at: Some(block_timestamp),
        updated_at: Some(now),
    }
}

/// `redeem_position_update` where the difference does not overflow, `None`
/// where it would.
pub fn try_redeem_position_update(
    position: &UserPosition,
    shares: Dec,
    block_timestamp: Timestamp,
    now: Timestamp,
) -> (r: Option<UserPositionUpdate>)
    ensures
        r is Some <==> redeemed_balance(position.share_balance@, shares@) is Some,
        r matches Some(u) ==> u.share_balance matches Some(b) && b@ == redeemed_balance(
            position.share_balance@,
            shares@,
        )->0,
        r matches Some(u) ==> u.cost_basis is None && u.last_activity_at == Some(block_timestamp)
            && u.updated_at == Some(now),
{
    if position.share_balance.checked_sub(&shares).is_some() {
        Some(redeem_position_update(position, shares, block_timestamp, now))
    } else {
        None
    }
}

// ---------------------------------------------------------------------------
// Events as they arrive

/// `tx_hash` is among the hashes of the transactions already recorded.
pub open spec fn hash_recorded(recorded: Seq<String>, tx_hash: Seq<char>) -> bool {
    exists|i: int| 0 <= i < recorded.len() && (#[trigger] recorded[i])@ == tx_hash
}

fn is_recorded(recorded: &Vec<String>, tx_hash: &str) -> (r: bool)
    ensures
        r == hash_recorded(recorded@, tx_hash@),
{
    let mut i: usize = 0;
    while i < recorded.len()
        invariant
            i <= recorded.len(),
            forall|j: int| 0 <= j < i ==> (#[trigger] recorded@[j])@ != tx_hash@,
        decreases recorded.len() - i,
    {
        if crate::text::str_eq(recorded[i].as_str(), tx_hash) {
            return true;
        }
        i = i + 1;
    }
    false
}

/// `p` is the share price `share_price_spec` gives, when it gives one.
pub open spec fn price_is(p: Option<Dec>, assets: DecView, shares: DecView) -> bool {
    &&& p is Some <==> share_price_spec(assets, shares)->0 is Some
    &&& p matches Some(x) ==> x@ == share_price_spec(assets, shares)->0->0
}

/// `t` is the confirmed transaction record of kind `kind` for the given event.
pub open spec fn event_record_is(
    t: NewUserTransaction,
    kind: TransactionType,
    tx_hash: String,
    block_number: u64,
    block_timestamp: Timestamp,
    user_address: String,
    vault_id: String,
    assets: Dec,
    shares: Dec,
) -> bool {
    &&& t.tx_hash == tx_hash
    &&& t.block_number == block_number as i64
    &&& t.block_timestamp == block_timestamp
    &&& t.user_address == user_address
    &&& t.vault_id == vault_id
    &&& t.type_@ == transaction_type_text(kind)
    &&& t.status@ == transaction_status_text(TransactionStatus::Confirmed)
    &&& t.amount == assets
    &&& t.shares_amount == Some(shares)
    &&& price_is(t.share_price, assets@, shares@)
    &&& t.gas_fee is None
}

/// What a deposit event writes: nothing when its transaction hash is
/// already recorded (a replayed event changes nothing); else its
/// transaction record and the change to the user's position (`existing`,
/// if the user has one). `None` where `Decimal` arithmetic would panic: the
/// share price, computed first, or the sums of the position.
pub fn deposit_event_outcome(
    recorded_hashes: &Vec<String>,
    tx_hash: String,
    block_number: u64,
    block_timestamp: Timestamp,
    user_address: String,
    vault_id: String,
    assets: Dec,
    shares: Dec,
    existing: Option<&UserPosition>,
    now: Timestamp,
) -> (r: Option<Option<(NewUserTransaction, PositionChange)>>)
    requires
        block_number <= i64::MAX,
    ensures
        share_price_spec(assets@, shares@) is None ==> r is None,
        share_price_spec(assets@, shares@) is Some && hash_recorded(recorded_hashes@, tx_hash@)
            ==> r matches Some(None),
        share_price_spec(assets@, shares@) is Some && !hash_recorded(recorded_hashes@, tx_hash@)
            ==> {
            &&& r is Some <==> deposit_fits(existing, shares@, assets@)
            &&& r matches Some(o) ==> o is Some
            &&& r matches Some(Some(w)) ==> event_record_is(
                w.0,
                TransactionType::Deposit,
                tx_hash,
                block_number,
                block_timestamp,
                user_address,
                vault_id,
                assets,
                shares,
            ) && w.0.metadata is None && deposit_change_is(
                w.1,
                existing,
                user_address,
                vault_id,
                shares,
                assets,
                block_timestamp,
                now,
            )
        },
{
    let share_price = match try_share_price_at(assets, shares) {
        None => return None,
        Some(p) => p,
    };
    if is_recorded(recorded_hashes, tx_hash.as_str()) {
        return Some(None);
    }
    let change = match try_deposit_position_change(
        existing,
        user_address.clone(),
        vault_id.clone(),
        shares,
        assets,
        block_timestamp,
        now,
    ) {
        None => return None,
        Some(c) => c,
    };
    let t = deposit_transaction(
        tx_hash,
        block_number,
        block_timestamp,
        user_address,
        vault_id,
        assets,
        shares,
        share_price,
    );
    Some(Some((t, change)))
}

/// What a redeem-request event writes: nothing when its transaction hash is
/// already recorded (a replayed event changes nothing); else its transaction
/// record and, when the user has a position (`position`), the update that
/// lowers its balance. `None` where `Decimal` arithmetic would panic: the
/// share price, computed first, or the difference of the balance.
pub fn redeem_event_outcome(
    recorded_hashes: &Vec<String>,
    tx_hash: String,
    block_number: u64,
    block_timestamp: Timestamp,
    user_address: String,
    vault_id: String,
    assets: Dec,
    shares: Dec,
    redeem_id: String,
    epoch: String,
    receiver: String,
    position: Option<&UserPosition>,
    now: Timestamp,
) -> (r: Option<Option<(NewUserTransaction, Option<UserPositionUpdate>)>>)
    requires
        block_number <= i64::MAX,
    ensures
        share_price_spec(assets@, shares@) is None ==> r is None,
        share_price_spec(assets@, shares@) is Some && hash_recorded(recorded_hashes@, tx_hash@)
            ==> r matches Some(None),
        share_price_spec(assets@, shares@) is Some && !hash_recorded(recorded_hashes@, tx_hash@)
            ==> {
            &&& r is Some <==> (position matches Some(p) ==> redeemed_balance(
                p.share_balance@,
                shares@,
            ) is Some)
            &&& r matches Some(o) ==> o is Some
            &&& r matches Some(Some(w)) ==> {
                &&& event_record_is(
                    w.0,
                    TransactionType::Withdraw,
                    tx_hash,
                    block_number,
                    block_timestamp,
                    user_address,
                    vault_id,
                    assets,
                    shares,
                )
                &&& w.0.metadata matches Some(m) && m@.len() == 3 && m@[0].0@ == "redeem_id"@
                    && m@[0].1 == redeem_id && m@[1].0@ == "epoch"@ && m@[1].1 == epoch
                    && m@[2].0@ == "receiver"@ && m@[2].1 == receiver
                &&& w.1 is Some <==> position is Some
                &&& w.1 matches Some(u) ==> u.share_balance matches Some(b) && b@
                    == redeemed_balance(position->0.share_balance@, shares@)->0
                    && u.cost_basis is None && u.last_activity_at == Some(block_timestamp)
                    && u.updated_at == Some(now)
            }
        },
{
    let share_price = match try_share_price_at(assets, shares) {
        None => return None,
        Some(p) => p,
    };
    if is_recorded(recorded_hashes, tx_hash.as_str()) {
        return Some(None);
    }
    let update = match position {
        None => None,
        Some(p) => match try_redeem_position_update(p, shares, block_timestamp, now) {
            None => return None,
            Some(u) => Some(u),
        },
    };
    let t = redeem_transaction(
        tx_hash,
        block_number,
        block_timestamp,
        user_address,
        vault_id,
        assets,
        shares,
        share_price,
        redeem_id,
        epoch,
        receiver,
    );
    Some(Some((t, update)))
}

/// Once the record an event writes is stored, its hash is recorded: the
/// same event, delivered again, writes nothing (by the contracts of
/// `deposit_event_outcome` and `redeem_event_outcome`).
pub proof fn lemma_stored_record_makes_replay(recorded: Seq<String>, written: NewUserTransaction)
    ensures
        hash_recorded(recorded.push(written.tx_hash), written.tx_hash@),
{
    assert(recorded.push(written.tx_hash)[recorded.len() as int] == written.tx_hash);
}

} // verus!
