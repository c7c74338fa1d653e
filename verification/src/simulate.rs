use crate::abi::{
    activate_call_encoding, decode_activate_return, decoded_return, encode_activate_call,
    lemma_return_encoding_decodes, return_encoding, ActivationResultView,
};
use crate::address::{arb_wasm_bytes, Address};
use crate::error::{ActivationError, ActivationErrorView};
use crate::hexadecimal::{decode_revert_payload, revert_payload};
use crate::uint256::{u256_limit, U256};
use vstd::prelude::*;

verus! {

/// A call for the node to run without a transaction.
#[derive(Clone, Debug, PartialEq, Eq)]
pub struct CallRequest {
    pub from: Option<Address>,
    pub to: Address,
    pub value: U256,
    pub data: Vec<u8>,
}

/// A `CallRequest` as numbers and sequences.
pub struct CallRequestView {
    pub from: Option<Seq<u8>>,
    pub to: Seq<u8>,
    pub value: nat,
    pub data: Seq<u8>,
}

impl View for CallRequest {
    type V = CallRequestView;

    open spec fn view(&self) -> CallRequestView {
        CallRequestView {
            from: match self.from {
                Some(sender) => Some(sender@),
                None => None,
            },
            to: self.to@,
            value: self.value@,
            data: self.data@,
        }
    }
}

/// One ether in wei: the value that the simulated call carries, since
/// `activateProgram` is payable.
pub open spec fn one_ether() -> nat {
    1_000_000_000_000_000_000
}

/// The call that estimates the data fee of `program`: `activateProgram(program)`
/// to the ArbWasm precompile, from nobody in particular, with one ether.
pub open spec fn estimation_call(program: Seq<u8>) -> CallRequestView {
    CallRequestView {
        from: None,
        to: arb_wasm_bytes(),
        value: one_ether(),
        data: activate_call_encoding(program),
    }
}

/// Builds the call that estimates the data fee of `program`.
pub fn build_estimation_call(program: &Address) -> (call: CallRequest)
    ensures
        call@ == estimation_call(program@),
{
    CallRequest {
        from: None,
        to: Address::arb_wasm(),
        value: U256::from_u64(1_000_000_000_000_000_000),
        data: encode_activate_call(program),
    }
}

/// The `data` field of a JSON-RPC error.
#[derive(Clone, Debug, PartialEq, Eq)]
pub enum ErrorData {
    /// The error has no such field.
    Absent,
    /// The field is a JSON string, and this is what it holds.
    Text(String),
    /// The field is some other JSON value, and this is how it is written.
    Other(String),
}

/// What came back from the node for a simulated call.
#[derive(Clone, Debug, PartialEq, Eq)]
pub enum CallReply {
    /// The call ran, and returned these bytes.
    Returned(Vec<u8>),
    /// The node answered with a JSON-RPC error.
    ErrorResponse { message: String, data: ErrorData },
    /// No answer of the node's came through.
    TransportFailure { detail: String },
}

/// How a simulated call ended.
#[derive(Clone, Debug, PartialEq, Eq)]
pub enum CallOutcome {
    Success(Vec<u8>),
    Reverted { data: Vec<u8>, message: String },
}

/// A `CallOutcome` as sequences.
pub enum CallOutcomeView {
    Success(Seq<u8>),
    Reverted { data: Seq<u8>, message: Seq<char> },
}

impl View for CallOutcome {
    type V = CallOutcomeView;

    open spec fn view(&self) -> CallOutcomeView {
        match *self {
            CallOutcome::Success(bytes) => CallOutcomeView::Success(bytes@),
            CallOutcome::Reverted { data, message } => CallOutcomeView::Reverted {
                data: data@,
                message: message@,
            },
        }
    }
}

/// How the call ended that the node answered with `reply`.
///
/// A JSON-RPC error is a revert: its `data`, where it has one, is the revert
/// payload in hexadecimal digits, and where it has none the payload is empty.
pub open spec fn classified(reply: CallReply) -> Result<CallOutcomeView, ActivationErrorView> {
    match reply {
        CallReply::Returned(bytes) => Ok(CallOutcomeView::Success(bytes@)),
        CallReply::ErrorResponse { message, data: ErrorData::Absent } => Ok(
            CallOutcomeView::Reverted { data: Seq::empty(), message: message@ },
        ),
        CallReply::ErrorResponse { message, data: ErrorData::Text(text) } => match revert_payload(
            text@,
        ) {
            Some(payload) => Ok(CallOutcomeView::Reverted { data: payload, message: message@ }),
            None => Err(ActivationErrorView::MalformedRpcError { data: text@ }),
        },
        CallReply::ErrorResponse { message, data: ErrorData::Other(written) } => Err(
            ActivationErrorView::MalformedRpcError { data: written@ },
        ),
        CallReply::TransportFailure { detail } => Err(
            ActivationErrorView::TransportError { detail: detail@ },
        ),
    }
}

/// The data fee that a simulated call with this outcome tells.
pub open spec fn outcome_fee(outcome: CallOutcomeView) -> Result<nat, ActivationErrorView> {
    match outcome {
        CallOutcomeView::Success(bytes) => match decoded_return(bytes) {
            Ok(result) => Ok(result.data_fee),
            Err(cause) => Err(ActivationErrorView::DecodeError(cause)),
        },
        CallOutcomeView::Reverted { data, message } => Err(
            ActivationErrorView::SimulationReverted { message },
        ),
    }
}

/// The data fee that the node's `reply` to the estimation call tells.
pub open spec fn estimated_fee(reply: CallReply) -> Result<nat, ActivationErrorView> {
    match classified(reply) {
        Ok(outcome) => outcome_fee(outcome),
        Err(error) => Err(error),
    }
}

/// Tells how the simulated call ended from what the node answered.
pub fn classify_reply(reply: CallReply) -> (r: Result<CallOutcome, ActivationError>)
    ensures
        r matches Ok(outcome) ==> classified(reply) == Ok::<
            CallOutcomeView,
            ActivationErrorView,
        >(outcome@),
        r matches Err(error) ==> classified(reply) == Err::<CallOutcomeView, ActivationErrorView>(
            error@,
        ),
{
    match reply {
        CallReply::Returned(bytes) => Ok(CallOutcome::Success(bytes)),
        CallReply::ErrorResponse { message, data } => match data {
            ErrorData::Absent => Ok(CallOutcome::Reverted { data: Vec::new(), message }),
            ErrorData::Text(text) => match decode_revert_payload(text.as_str()) {
                Some(payload) => Ok(CallOutcome::Reverted { data: payload, message }),
                None => Err(ActivationError::MalformedRpcError { data: text }),
            },
            ErrorData::Other(written) => Err(ActivationError::MalformedRpcError { data: written }),
        },
        CallReply::TransportFailure { detail } => Err(ActivationError::TransportError { detail }),
    }
}

/// Reads the data fee off the outcome of the estimation call.
pub fn fee_from_outcome(outcome: CallOutcome) -> (r: Result<U256, ActivationError>)
    ensures
        r matches Ok(fee) ==> outcome_fee(outcome@) == Ok::<nat, ActivationErrorView>(fee@),
        r matches Err(error) ==> outcome_fee(outcome@) == Err::<nat, ActivationErrorView>(error@),
{
    match outcome {
        CallOutcome::Success(bytes) => match decode_activate_return(bytes.as_slice()) {
            Ok(result) => Ok(result.data_fee),
            Err(cause) => Err(ActivationError::DecodeError(cause)),
        },
        CallOutcome::Reverted { data, message } => Err(
            ActivationError::SimulationReverted { message },
        ),
    }
}

/// The estimate of the activation data fee, from what the node answered to
/// the estimation call.
pub fn estimate_activation_data_fee(reply: CallReply) -> (r: Result<U256, ActivationError>)
    ensures
        r matches Ok(fee) ==> estimated_fee(reply) == Ok::<nat, ActivationErrorView>(fee@),
        r matches Err(error) ==> estimated_fee(reply) == Err::<nat, ActivationErrorView>(error@),
{
    match classify_reply(reply) {
        Ok(outcome) => fee_from_outcome(outcome),
        Err(error) => Err(error),
    }
}

/// A call that returns the encoded tuple of a result, and be it followed by
/// more bytes, gives the data fee of that result as the estimate.
pub proof fn lemma_returned_tuple_gives_its_fee(
    bytes: Vec<u8>,
    result: ActivationResultView,
    rest: Seq<u8>,
)
    requires
        result.data_fee < u256_limit(),
        bytes@ == return_encoding(result) + rest,
    ensures
        estimated_fee(CallReply::Returned(bytes)) == Ok::<nat, ActivationErrorView>(
            result.data_fee,
        ),
{
    lemma_return_encoding_decodes(result, rest);
}

/// An error response of the node is never taken for a fee, nor for a failure
/// of the transport. The estimate fails with the node's own message where the
/// response has no `data` or hexadecimal `data`, and as malformed otherwise.
pub proof fn lemma_error_response_fails_the_estimate(message: String, data: ErrorData)
    ensures
        estimated_fee(CallReply::ErrorResponse { message, data }) == Err::<
            nat,
            ActivationErrorView,
        >(
            match data {
                ErrorData::Absent => ActivationErrorView::SimulationReverted { message: message@ },
                ErrorData::Text(text) => if revert_payload(text@) is Some {
                    ActivationErrorView::SimulationReverted { message: message@ }
                } else {
                    ActivationErrorView::MalformedRpcError { data: text@ }
                },
                ErrorData::Other(written) => ActivationErrorView::MalformedRpcError {
                    data: written@,
                },
            },
        ),
{
}

} // verus!
