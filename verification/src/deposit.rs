//! The rules of a deposit request: which vaults take deposits, the amounts
//! they accept, the sender of the transaction, and what is recorded and
//! answered once the transaction has been submitted.
use crate::bigdec::{big_decimal_display, big_decimal_parse, big_value_lt, BigDec, BigDecView};
use crate::felt::{felt_from_hex, felt_from_hex_spec, invoke_sender, invoke_sender_spec};
use crate::response::{is_bad_request, ApiError};
use crate::text::{ascii_lower_text, eq_ignore_ascii_case_left};
use crate::time::Timestamp;
use crate::types::{deposit_request_status_text, DepositRequestStatus};
use vstd::prelude::*;
use vstd::string::StringExecFns;

verus! {

/// The state of a deposit request as the API answers it.
#[derive(Clone, Copy, Debug, PartialEq, Eq, Structural)]
pub enum VaultDepositStatus {
    Pending,
    Submitted,
    Failed,
}

/// The answer to an accepted deposit request.
pub struct VaultDepositResponse {
    pub request_id: String,
    pub status: VaultDepositStatus,
    pub tx_hash: Option<String>,
    pub referral_code: Option<String>,
}

/// Changes to a stored deposit request.
pub struct DepositRequestUpdate {
    pub tx_hash: Option<String>,
    pub status: String,
    pub error_code: Option<String>,
    pub error_message: Option<String>,
    pub updated_at: Option<Timestamp>,
}

/// The message for a vault that is not on Starknet.
pub open spec fn not_starknet_msg() -> Seq<char> {
    "Deposits are only supported for Starknet vaults"@
}

/// The message for a vault whose deposits are paused.
pub open spec fn paused_msg() -> Seq<char> {
    "Deposits are currently paused for this vault"@
}

/// The message for an amount that does not read as a decimal.
pub open spec fn invalid_amount_msg() -> Seq<char> {
    "Invalid amount format"@
}

/// The message for an amount that is not positive.
pub open spec fn non_positive_amount_msg() -> Seq<char> {
    "Deposit amount must be greater than zero"@
}

/// The message for a user address that does not read as a field element.
pub open spec fn invalid_address_msg() -> Seq<char> {
    "Invalid user address"@
}

/// The message for a transaction sent by another address than the user's.
pub open spec fn sender_mismatch_msg() -> Seq<char> {
    "Transaction sender does not match user address"@
}

/// The message for an amount below the minimum `min`.
pub open spec fn below_min_msg(min: BigDecView) -> Seq<char> {
    "Deposit amount below minimum threshold ("@ + big_decimal_display(min) + ")"@
}

/// The message for an amount above the maximum `max`.
pub open spec fn above_max_msg(max: BigDecView) -> Seq<char> {
    "Deposit amount exceeds maximum threshold ("@ + big_decimal_display(max) + ")"@
}

/// `r` is a bad request with the message `msg`.
pub open spec fn refused_with<T>(r: Result<T, ApiError>, msg: Seq<char>) -> bool {
    r matches Err(e) && is_bad_request(e, msg)
}

/// The answer to the checks of a deposit request, in the order they are
/// made: the vault must be on Starknet (its chain, in ASCII lowercase, is
/// `starknet`) and not paused; the amount text must read as a decimal that
/// is positive, not below the minimum and not above the maximum, when they
/// are set. `Ok` carries the amount.
pub open spec fn deposit_check_spec(
    chain: Seq<char>,
    deposit_paused: Option<bool>,
    amount: Seq<char>,
    min_deposit: Option<BigDecView>,
    max_deposit: Option<BigDecView>,
) -> Result<BigDecView, Seq<char>> {
    if ascii_lower_text(chain) != "starknet"@ {
        Err(not_starknet_msg())
    } else if deposit_paused == Some(true) {
        Err(paused_msg())
    } else {
        match big_decimal_parse(amount) {
            None => Err(invalid_amount_msg()),
            Some(a) => if !big_value_lt((0, 0), a) {
                Err(non_positive_amount_msg())
            } else if min_deposit matches Some(min) && big_value_lt(a, min) {
                Err(below_min_msg(min_deposit->0))
            } else if max_deposit matches Some(max) && big_value_lt(max, a) {
                Err(above_max_msg(max_deposit->0))
            } else {
                Ok(a)
            },
        }
    }
}

/// An accepted deposit is on a Starknet vault that is not paused, and its
/// amount reads from the request, is positive, and lies within the vault's
/// minimum and maximum.
pub proof fn lemma_accepted_deposit_within_limits(
    chain: Seq<char>,
    deposit_paused: Option<bool>,
    amount: Seq<char>,
    min_deposit: Option<BigDecView>,
    max_deposit: Option<BigDecView>,
)
    ensures
        deposit_check_spec(chain, deposit_paused, amount, min_deposit, max_deposit) matches Ok(a)
            ==> {
            &&& ascii_lower_text(chain) == "starknet"@
            &&& deposit_paused != Some(true)
            &&& big_decimal_parse(amount) == Some(a)
            &&& big_value_lt((0, 0), a)
            &&& min_deposit matches Some(m) ==> !big_value_lt(a, m)
            &&& max_deposit matches Some(m) ==> !big_value_lt(m, a)
        },
{
}

/// Which answer a deposit request gets: refused when the vault is not on
/// Starknet, else when it is paused, else when the amount does not read,
/// else when it is not positive, else when it is below the minimum, else when
/// it is above the maximum; and accepted, with the amount read, otherwise.
pub proof fn lemma_deposit_answer(
    chain: Seq<char>,
    deposit_paused: Option<bool>,
    amount: Seq<char>,
    min_deposit: Option<BigDecView>,
    max_deposit: Option<BigDecView>,
)
    ensures
        ascii_lower_text(chain) != "starknet"@ ==> deposit_check_spec(
            chain,
            deposit_paused,
            amount,
            min_deposit,
            max_deposit,
        ) == Err::<BigDecView, Seq<char>>(not_starknet_msg()),
        ascii_lower_text(chain) == "starknet"@ && deposit_paused == Some(true) ==> deposit_check_spec(
            chain,
            deposit_paused,
            amount,
            min_deposit,
            max_deposit,
        ) == Err::<BigDecView, Seq<char>>(paused_msg()),
        ascii_lower_text(chain) == "starknet"@ && deposit_paused != Some(true) && big_decimal_parse(
            amount,
        ) is None ==> deposit_check_spec(chain, deposit_paused, amount, min_deposit, max_deposit)
            == Err::<BigDecView, Seq<char>>(invalid_amount_msg()),
        big_decimal_parse(amount) matches Some(a) ==> (ascii_lower_text(chain) == "starknet"@
            && deposit_paused != Some(true) ==> {
            let r = deposit_check_spec(chain, deposit_paused, amount, min_deposit, max_deposit);
            let above_min = min_deposit is None || !big_value_lt(a, min_deposit->0);
            let below_max = max_deposit is None || !big_value_lt(max_deposit->0, a);
            &&& !big_value_lt((0, 0), a) ==> r == Err::<BigDecView, Seq<char>>(
                non_positive_amount_msg(),
            )
            &&& big_value_lt((0, 0), a) && !above_min ==> r == Err::<BigDecView, Seq<char>>(
                below_min_msg(min_deposit->0),
            )
            &&& big_value_lt((0, 0), a) && above_min && !below_max ==> r == Err::<
                BigDecView,
                Seq<char>,
            >(above_max_msg(max_deposit->0))
            &&& big_value_lt((0, 0), a) && above_min && below_max ==> r == Ok::<
                BigDecView,
                Seq<char>,
            >(a)
        }),
{
}

/// The view of an optional big decimal.
pub open spec fn opt_big_view(d: Option<&BigDec>) -> Option<BigDecView> {
    match d {
        Some(x) => Some(x@),
        None => None,
    }
}

fn bracketed(prefix: &str, value: &BigDec) -> (r: String)
    ensures
        r@ == prefix@ + big_decimal_display(value@) + ")"@,
{
    let mut s = prefix.to_owned();
    let text = value.to_text();
    s.append(text.as_str());
    s.append(")");
    s
}

/// Checks a deposit request against its vault, and reads its amount.
pub fn check_deposit(
    chain: &str,
    deposit_paused: Option<bool>,
    amount: &str,
    min_deposit: Option<&BigDec>,
    max_deposit: Option<&BigDec>,
) -> (r: Result<BigDec, ApiError>)
    ensures
        match deposit_check_spec(
            chain@,
            deposit_paused,
            amount@,
            opt_big_view(min_deposit),
            opt_big_view(max_deposit),
        ) {
            Ok(a) => r matches Ok(d) && d@ == a,
            Err(msg) => refused_with(r, msg),
        },
{
    if !eq_ignore_ascii_case_left(chain, "starknet") {
        return Err(ApiError::bad_request("Deposits are only supported for Starknet vaults"));
    }
    let paused = match deposit_paused {
        Some(p) => p,
        None => false,
    };
    if paused {
        return Err(ApiError::bad_request("Deposits are currently paused for this vault"));
    }
    let amount = match BigDec::parse(amount) {
        Ok(a) => a,
        Err(_) => return Err(ApiError::bad_request("Invalid amount format")),
    };
    if !BigDec::zero().lt(&amount) {
        return Err(ApiError::bad_request("Deposit amount must be greater than zero"));
    }
    match min_deposit {
        Some(min) => {
            if amount.lt(min) {
                return Err(
                    ApiError::BadRequest(bracketed("Deposit amount below minimum threshold (", min)),
                );
            }
        },
        None => {},
    }
    match max_deposit {
        Some(max) => {
            if max.lt(&amount) {
                return Err(
                    ApiError::BadRequest(
                        bracketed("Deposit amount exceeds maximum threshold (", max),
                    ),
                );
            }
        },
        None => {},
    }
    Ok(amount)
}

/// Checks that the user address of a deposit request reads as a field
/// element and is the sender of its transaction (given by its big-endian
/// bytes).
pub fn check_deposit_sender(user_address: &str, sender_be_bytes: &[u8; 32]) -> (r: Result<
    (),
    ApiError,
>)
    ensures
        felt_from_hex_spec(user_address@) is None ==> refused_with(r, invalid_address_msg()),
        felt_from_hex_spec(user_address@) matches Some(b) && b != sender_be_bytes@ ==> refused_with(
            r,
            sender_mismatch_msg(),
        ),
        r is Ok <==> felt_from_hex_spec(user_address@) == Some(sender_be_bytes@),
{
    let provided = match felt_from_hex(user_address) {
        Ok(b) => b,
        Err(_) => return Err(ApiError::bad_request("Invalid user address")),
    };
    let mut i: usize = 0;
    while i < 32
        invariant
            i <= 32,
            provided@.len() == 32,
            sender_be_bytes@.len() == 32,
            felt_from_hex_spec(user_address@) == Some(provided@),
            forall|j: int| 0 <= j < i ==> provided@[j] == sender_be_bytes@[j],
        decreases 32 - i,
    {
        if provided[i] != sender_be_bytes[i] {
            proof {
                assert(provided@[i as int] != sender_be_bytes@[i as int]);
            }
            return Err(ApiError::bad_request("Transaction sender does not match user address"));
        }
        i = i + 1;
    }
    proof {
        assert(provided@ =~= sender_be_bytes@);
    }
    Ok(())
}

/// The message for a transaction payload that is not an invoke transaction.
pub open spec fn invalid_payload_msg() -> Seq<char> {
    "Invalid transaction payload"@
}

/// The answer to all the checks of a deposit request, in the order they
/// are made: those of `deposit_check_spec`; then the transaction payload
/// must read as an invoke transaction, the user address as a field element,
/// and that element must be the transaction's sender. `Ok` carries the
/// amount.
pub open spec fn deposit_request_check_spec(
    chain: Seq<char>,
    deposit_paused: Option<bool>,
    amount: Seq<char>,
    min_deposit: Option<BigDecView>,
    max_deposit: Option<BigDecView>,
    user_address: Seq<char>,
    transaction_json: Seq<char>,
) -> Result<BigDecView, Seq<char>> {
    match deposit_check_spec(chain, deposit_paused, amount, min_deposit, max_deposit) {
        Err(m) => Err(m),
        Ok(a) => match invoke_sender_spec(transaction_json) {
            None => Err(invalid_payload_msg()),
            Some(sender) => match felt_from_hex_spec(user_address) {
                None => Err(invalid_address_msg()),
                Some(user) => if user != sender {
                    Err(sender_mismatch_msg())
                } else {
                    Ok(a)
                },
            },
        },
    }
}

/// Checks a deposit request (the vault's chain, pause flag and limits, the
/// amount, the transaction payload as JSON text and the user address)
/// before anything is stored or sent, and reads its amount.
pub fn check_deposit_request(
    chain: &str,
    deposit_paused: Option<bool>,
    amount: &str,
    min_deposit: Option<&BigDec>,
    max_deposit: Option<&BigDec>,
    user_address: &str,
    transaction_json: &str,
) -> (r: Result<BigDec, ApiError>)
    ensures
        match deposit_request_check_spec(
            chain@,
            deposit_paused,
            amount@,
            opt_big_view(min_deposit),
            opt_big_view(max_deposit),
            user_address@,
            transaction_json@,
        ) {
            Ok(a) => r matches Ok(d) && d@ == a,
            Err(msg) => refused_with(r, msg),
        },
{
    let a = check_deposit(chain, deposit_paused, amount, min_deposit, max_deposit)?;
    let sender = match invoke_sender(transaction_json) {
        Some(s) => s,
        None => return Err(ApiError::bad_request("Invalid transaction payload")),
    };
    check_deposit_sender(user_address, &sender)?;
    Ok(a)
}

/// Calls `str::to_ascii_lowercase`, which maps `A..=Z` to `a..=z` and leaves
/// every other character as it is (its documentation).
#[verifier::external_body]
fn to_ascii_lowercase(s: &str) -> (r: String)
    ensures
        r@ == ascii_lower_text(s@),
{
    s.to_ascii_lowercase()
}

/// The user address a deposit request is stored under: its ASCII lowercase.
pub fn normalized_user_address(user_address: &str) -> (r: String)
    ensures
        r@ == ascii_lower_text(user_address@),
{
    to_ascii_lowercase(user_address)
}

/// A deposit request to store.
pub struct NewDepositRequest {
    pub id: String,
    pub vault_id: String,
    pub user_address: String,
    pub amount: BigDec,
    pub referral_code: Option<String>,
    /// The JSON text of the invoke transaction.
    pub transaction: String,
    pub tx_hash: Option<String>,
    pub status: String,
    pub error_code: Option<String>,
    pub error_message: Option<String>,
}

/// The record of an accepted deposit request before its transaction is
/// submitted: pending, with no hash and no error, under the user address in
/// ASCII lowercase.
pub fn pending_deposit_request(
    request_id: String,
    vault_id: String,
    user_address: &str,
    amount: BigDec,
    referral_code: Option<String>,
    transaction: String,
) -> (r: NewDepositRequest)
    ensures
        r.id == request_id,
        r.vault_id == vault_id,
        r.user_address@ == ascii_lower_text(user_address@),
        r.amount@ == amount@,
        r.referral_code == referral_code,
        r.transaction == transaction,
        r.tx_hash is None,
        r.status@ == deposit_request_status_text(DepositRequestStatus::Pending),
        r.error_code is None,
        r.error_message is None,
{
    NewDepositRequest {
        id: request_id,
        vault_id,
        user_address: normalized_user_address(user_address),
        amount,
        referral_code,
        transaction,
        tx_hash: None,
        status: DepositRequestStatus::Pending.as_str().to_owned(),
        error_code: None,
        error_message: None,
    }
}

/// The message answered when submitting a deposit transaction failed.
pub open spec fn submission_failed_msg(request_id: Seq<char>) -> Seq<char> {
    "Failed to submit transaction (request_id: "@ + request_id + ")"@
}

/// What is recorded and answered once the transaction of deposit request
/// `request_id` has been submitted: with the transaction hash, the request
/// is marked submitted and the answer carries the hash; with the provider's
/// error message, the request is marked failed with the error code
/// `provider_error` and the service is answered unavailable.
pub fn deposit_submission_outcome(
    request_id: String,
    referral_code: Option<String>,
    submission: Result<String, String>,
    now: Timestamp,
) -> (r: (DepositRequestUpdate, Result<VaultDepositResponse, ApiError>))
    ensures
        submission matches Ok(hash) ==> {
            &&& r.0.tx_hash == Some(hash)
            &&& r.0.status@ == deposit_request_status_text(DepositRequestStatus::Submitted)
            &&& r.0.error_code is None
            &&& r.0.error_message is None
            &&& r.0.updated_at == Some(now)
            &&& r.1 matches Ok(resp)
            &&& r.1->Ok_0.request_id == request_id
            &&& r.1->Ok_0.status == VaultDepositStatus::Submitted
            &&& r.1->Ok_0.tx_hash == Some(hash)
            &&& r.1->Ok_0.referral_code == referral_code
        },
        submission matches Err(msg) ==> {
            &&& r.0.tx_hash is None
            &&& r.0.status@ == deposit_request_status_text(DepositRequestStatus::Failed)
            &&& r.0.error_code matches Some(c) && c@ == "provider_error"@
            &&& r.0.error_message == Some(msg)
            &&& r.0.updated_at == Some(now)
            &&& r.1 matches Err(ApiError::ServiceUnavailable(m))
            &&& r.1->Err_0->ServiceUnavailable_0@ == submission_failed_msg(request_id@)
        },
{
    match submission {
        Ok(tx_hash) => {
            let update = DepositRequestUpdate {
                tx_hash: Some(tx_hash.clone()),
                status: DepositRequestStatus::Submitted.as_str().to_owned(),
                error_code: None,
                error_message: None,
                updated_at: Some(now),
            };
            let response = VaultDepositResponse {
                request_id,
                status: VaultDepositStatus::Submitted,
                tx_hash: Some(tx_hash),
                referral_code,
            };
            (update, Ok(response))
        },
        Err(error_message) => {
            let update = DepositRequestUpdate {
                tx_hash: None,
                status: DepositRequestStatus::Failed.as_str().to_owned(),
                error_code: Some("provider_error".to_owned()),
                error_message: Some(error_message),
                updated_at: Some(now),
            };
            let mut msg = "Failed to submit transaction (request_id: ".to_owned();
            msg.append(request_id.as_str());
            msg.append(")");
            (update, Err(ApiError::ServiceUnavailable(msg)))
        },
    }
}

} // verus!
