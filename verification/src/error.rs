use crate::abi::DecodeError;
use vstd::prelude::*;

verus! {

/// Why an activation did not go through.
#[derive(Clone, Debug, PartialEq, Eq)]
pub enum ActivationError {
    /// The node could not be reached, or the signer refused. The caller may
    /// try again.
    TransportError { detail: String },
    /// The node answered with a JSON-RPC error whose `data` is neither absent
    /// nor a string of hexadecimal digits. `data` is that field as text.
    MalformedRpcError { data: String },
    /// The simulated call reverted: as things stand the program cannot be
    /// activated. `message` is the node's own.
    SimulationReverted { message: String },
    /// The simulated call returned bytes that are not the expected tuple.
    DecodeError(DecodeError),
    /// The estimate, raised by the configured bump, needs more than 256 bits.
    FeeOutOfRange,
    /// The transaction went out, and the node has no receipt for it.
    ActivationNotConfirmed,
}

/// An `ActivationError` with its texts as sequences of characters.
pub enum ActivationErrorView {
    TransportError { detail: Seq<char> },
    MalformedRpcError { data: Seq<char> },
    SimulationReverted { message: Seq<char> },
    DecodeError(DecodeError),
    FeeOutOfRange,
    ActivationNotConfirmed,
}

impl View for ActivationError {
    type V = ActivationErrorView;

    open spec fn view(&self) -> ActivationErrorView {
        match *self {
            ActivationError::TransportError { detail } => ActivationErrorView::TransportError {
                detail: detail@,
            },
            ActivationError::MalformedRpcError { data } => ActivationErrorView::MalformedRpcError {
                data: data@,
            },
            ActivationError::SimulationReverted {
                message,
            } => ActivationErrorView::SimulationReverted { message: message@ },
            ActivationError::DecodeError(cause) => ActivationErrorView::DecodeError(cause),
            ActivationError::FeeOutOfRange => ActivationErrorView::FeeOutOfRange,
            ActivationError::ActivationNotConfirmed => ActivationErrorView::ActivationNotConfirmed,
        }
    }
}

/// What an error says in words. A failure of the transport and a revert
/// speak for themselves, in the words of the node or the signer.
pub open spec fn error_text(error: ActivationErrorView) -> Seq<char> {
    match error {
        ActivationErrorView::TransportError { detail } => detail,
        ActivationErrorView::MalformedRpcError { data } => "failed to decode RPC failure: "@
            + data,
        ActivationErrorView::SimulationReverted { message } => message,
        ActivationErrorView::DecodeError(DecodeError::Truncated) => {
            "returned data is shorter than the activation result"@
        },
        ActivationErrorView::DecodeError(DecodeError::BadPadding) => {
            "returned version does not fit in 16 bits"@
        },
        ActivationErrorView::FeeOutOfRange => "bumped data fee does not fit in 256 bits"@,
        ActivationErrorView::ActivationNotConfirmed => {
            "no receipt for the activation transaction"@
        },
    }
}

impl ActivationError {
    /// What the error says in words.
    pub fn message(&self) -> (r: String)
        ensures
            r@ == error_text(self@),
    {
        match self {
            ActivationError::TransportError { detail } => detail.clone(),
            ActivationError::MalformedRpcError { data } => {
                String::from_str("failed to decode RPC failure: ").concat(data.as_str())
            },
            ActivationError::SimulationReverted { message } => message.clone(),
            ActivationError::DecodeError(DecodeError::Truncated) => String::from_str(
                "returned data is shorter than the activation result",
            ),
            ActivationError::DecodeError(DecodeError::BadPadding) => String::from_str(
                "returned version does not fit in 16 bits",
            ),
            ActivationError::FeeOutOfRange => String::from_str(
                "bumped data fee does not fit in 256 bits",
            ),
            ActivationError::ActivationNotConfirmed => String::from_str(
                "no receipt for the activation transaction",
            ),
        }
    }

    /// Whether the same attempt may succeed if it is made again: only a
    /// failure of the transport is of that kind.
    pub fn is_retryable(&self) -> (r: bool)
        ensures
            r == (self@ is TransportError),
    {
        match self {
            ActivationError::TransportError { .. } => true,
            _ => false,
        }
    }
}

} // verus!
