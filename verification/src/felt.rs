//! Starknet field elements, held as their 32 big-endian bytes.
use vstd::prelude::*;

verus! {

/// The text `format!("{:#64x}", felt)` writes for the field element whose
/// big-endian bytes are `bytes` (reduced modulo the field's prime).
pub uninterp spec fn felt_hex_text(bytes: Seq<u8>) -> Seq<char>;

/// The big-endian bytes of the field element that `starknet::core::types::Felt::from_hex` reads
/// from `s`, `None` when it refuses the text.
pub uninterp spec fn felt_from_hex_spec(s: Seq<char>) -> Option<Seq<u8>>;

/// Calls `starknet::core::types::Felt::from_bytes_be` and formats the element with `{:#64x}`: lower
/// case hex after `0x`, padded with spaces on the left to 64 characters.
#[verifier::external_body]
fn felt_hex(felt_be_bytes: &[u8; 32]) -> (r: String)
    ensures
        r@ == felt_hex_text(felt_be_bytes@),
{
    let felt = starknet::core::types::Felt::from_bytes_be(felt_be_bytes);
    format!("{felt:#64x}")
}

/// The hex text of a field element given by its big-endian bytes.
pub fn felt_to_hex_str(felt_be_bytes: [u8; 32]) -> (r: String)
    ensures
        r@ == felt_hex_text(felt_be_bytes@),
{
    felt_hex(&felt_be_bytes)
}

/// Calls `starknet::core::types::Felt::from_hex` and gives the element's big-endian bytes.
#[verifier::external_body]
pub(crate) fn felt_from_hex(s: &str) -> (r: Result<[u8; 32], starknet::core::types::FromStrError>)
    ensures
        r is Ok <==> felt_from_hex_spec(s@) is Some,
        r matches Ok(b) ==> b@ == felt_from_hex_spec(s@)->0,
{
    match starknet::core::types::Felt::from_hex(s) {
        Ok(f) => Ok(f.to_bytes_be()),
        Err(e) => Err(e),
    }
}

/// The big-endian bytes of the sender of the invoke transaction that the
/// JSON text `json` describes, as `serde_json` reads the text into
/// `starknet::core::types::BroadcastedInvokeTransaction`; `None` when the
/// text does not read as one.
pub uninterp spec fn invoke_sender_spec(json: Seq<char>) -> Option<Seq<u8>>;

/// Calls `serde_json::from_str::<BroadcastedInvokeTransaction>` and gives
/// the big-endian bytes of the transaction's `sender_address`.
#[verifier::external_body]
pub(crate) fn invoke_sender(json: &str) -> (r: Option<[u8; 32]>)
    ensures
        r is Some <==> invoke_sender_spec(json@) is Some,
        r matches Some(b) ==> b@ == invoke_sender_spec(json@)->0,
{
    match serde_json::from_str::<starknet::core::types::BroadcastedInvokeTransaction>(json) {
        Ok(t) => Some(t.sender_address.to_bytes_be()),
        Err(_) => None,
    }
}

/// `starknet_types_core::felt::FromStrError`, the error of `starknet::core::types::Felt::from_hex`.
#[verifier::external_type_specification]
#[verifier::external_body]
pub struct ExFromStrError(starknet::core::types::FromStrError);

} // verus!
