use crate::abi::{activate_call_encoding, encode_activate_call};
use crate::address::{arb_wasm_bytes, Address};
use crate::error::{ActivationError, ActivationErrorView};
use crate::hexadecimal::{hex_encode, hex_text};
use crate::uint256::U256;
use vstd::prelude::*;

verus! {

/// A transaction as it is handed to the signer.
#[derive(Clone, Debug, PartialEq, Eq)]
pub struct Transaction {
    pub from: Address,
    pub to: Address,
    pub value: U256,
    pub data: Vec<u8>,
}

/// A `Transaction` as numbers and sequences.
pub struct TransactionView {
    pub from: Seq<u8>,
    pub to: Seq<u8>,
    pub value: nat,
    pub data: Seq<u8>,
}

impl View for Transaction {
    type V = TransactionView;

    open spec fn view(&self) -> TransactionView {
        TransactionView { from: self.from@, to: self.to@, value: self.value@, data: self.data@ }
    }
}

/// The transaction by which `sender` activates `program` and pays `fee`:
/// `activateProgram(program)` to the ArbWasm precompile, with the fee as its value.
pub open spec fn activation_transaction(
    program: Seq<u8>,
    fee: nat,
    sender: Seq<u8>,
) -> TransactionView {
    TransactionView {
        from: sender,
        to: arb_wasm_bytes(),
        value: fee,
        data: activate_call_encoding(program),
    }
}

/// Builds the transaction by which `sender` activates `program` and pays `fee`.
pub fn build_activation_transaction(program: &Address, fee: U256, sender: &Address) -> (tx:
    Transaction)
    ensures
        tx@ == activation_transaction(program@, fee@, sender@),
{
    Transaction {
        from: *sender,
        to: Address::arb_wasm(),
        value: fee,
        data: encode_activate_call(program),
    }
}

/// The hash by which the network knows a transaction.
#[derive(Clone, Copy, Debug, PartialEq, Eq)]
pub struct TxHash {
    pub bytes: [u8; 32],
}

impl View for TxHash {
    type V = Seq<u8>;

    open spec fn view(&self) -> Seq<u8> {
        self.bytes@
    }
}

impl TxHash {
    /// The hash in 64 hexadecimal digits, as it is reported.
    pub fn to_hex(&self) -> (r: String)
        ensures
            r@ == hex_text(self@),
    {
        hex_encode(self.bytes.as_slice())
    }
}

/// Where the submission of the activation transaction stands.
///
/// It starts as `Built`, becomes `Submitted` once the signer has sent the
/// transaction, and ends as `Confirmed`, `NotConfirmed` or `TransportFailed`.
/// Nothing is tried twice.
#[derive(Clone, Debug, PartialEq, Eq)]
pub enum Submission {
    /// The transaction is built and not yet sent.
    Built(Transaction),
    /// The transaction is sent and the receipt is awaited.
    Submitted,
    /// The transaction is in a block.
    Confirmed { tx_hash: TxHash },
    /// The node reports no receipt for the transaction.
    NotConfirmed,
    /// The signer or the node failed while sending or waiting.
    TransportFailed { detail: String },
}

/// What the signer and the node report back.
#[derive(Clone, Debug, PartialEq, Eq)]
pub enum SubmitEvent {
    /// The signer has signed and sent the transaction.
    Sent,
    /// The wait for the receipt is over: with the hash of the transaction
    /// that the receipt names, or without a receipt.
    Receipt(Option<TxHash>),
    /// Sending or waiting failed.
    Failed { detail: String },
}

/// What is to be done next for a submission.
#[derive(Clone, Copy, Debug, PartialEq, Eq)]
pub enum SubmitAction {
    /// Hand the built transaction to the signer.
    Send,
    /// Wait for the receipt.
    AwaitReceipt,
    /// Nothing: the submission has ended.
    Stop,
}

/// A `Submission` as sequences.
pub enum SubmissionView {
    Built(TransactionView),
    Submitted,
    Confirmed { tx_hash: Seq<u8> },
    NotConfirmed,
    TransportFailed { detail: Seq<char> },
}

impl View for Submission {
    type V = SubmissionView;

    open spec fn view(&self) -> SubmissionView {
        match *self {
            Submission::Built(tx) => SubmissionView::Built(tx@),
            Submission::Submitted => SubmissionView::Submitted,
            Submission::Confirmed { tx_hash } => SubmissionView::Confirmed { tx_hash: tx_hash@ },
            Submission::NotConfirmed => SubmissionView::NotConfirmed,
            Submission::TransportFailed { detail } => SubmissionView::TransportFailed {
                detail: detail@,
            },
        }
    }
}

/// Whether the submission has ended.
pub open spec fn is_terminal(state: SubmissionView) -> bool {
    state is Confirmed || state is NotConfirmed || state is TransportFailed
}

/// The state that follows `state` when `event` is reported. An event that
/// the state does not wait for changes nothing.
pub open spec fn next_state(state: SubmissionView, event: SubmitEvent) -> SubmissionView {
    match (state, event) {
        (SubmissionView::Built(_), SubmitEvent::Sent) => SubmissionView::Submitted,
        (SubmissionView::Built(_), SubmitEvent::Failed { detail }) => {
            SubmissionView::TransportFailed { detail: detail@ }
        },
        (SubmissionView::Submitted, SubmitEvent::Receipt(Some(tx_hash))) => {
            SubmissionView::Confirmed { tx_hash: tx_hash@ }
        },
        (SubmissionView::Submitted, SubmitEvent::Receipt(None)) => SubmissionView::NotConfirmed,
        (SubmissionView::Submitted, SubmitEvent::Failed { detail }) => {
            SubmissionView::TransportFailed { detail: detail@ }
        },
        _ => state,
    }
}

/// Whether `state` waits for `event`: a built transaction for the word that
/// it is sent, a sent one for the receipt, and both for a failure.
pub open spec fn awaits(state: SubmissionView, event: SubmitEvent) -> bool {
    match state {
        SubmissionView::Built(_) => event is Sent || event is Failed,
        SubmissionView::Submitted => event is Receipt || event is Failed,
        _ => false,
    }
}

/// What is to be done in `state`.
pub open spec fn action_in(state: SubmissionView) -> SubmitAction {
    match state {
        SubmissionView::Built(_) => SubmitAction::Send,
        SubmissionView::Submitted => SubmitAction::AwaitReceipt,
        _ => SubmitAction::Stop,
    }
}

/// How a submission in `state` has ended, if it has: with the hash of the
/// confirmed transaction, or with the reason why there is none.
pub open spec fn result_of(state: SubmissionView) -> Option<Result<Seq<u8>, ActivationErrorView>> {
    match state {
        SubmissionView::Confirmed { tx_hash } => Some(Ok(tx_hash)),
        SubmissionView::NotConfirmed => Some(Err(ActivationErrorView::ActivationNotConfirmed)),
        SubmissionView::TransportFailed { detail } => Some(
            Err(ActivationErrorView::TransportError { detail }),
        ),
        _ => None,
    }
}

/// The end of a submission as sequences.
pub open spec fn end_view(end: Result<TxHash, ActivationError>) -> Result<
    Seq<u8>,
    ActivationErrorView,
> {
    match end {
        Ok(tx_hash) => Ok(tx_hash@),
        Err(error) => Err(error@),
    }
}

impl Submission {
    /// Starts the submission of the transaction by which `sender` activates
    /// `program` and pays `fee`.
    pub fn new(program: &Address, fee: U256, sender: &Address) -> (r: Submission)
        ensures
            r@ == SubmissionView::Built(activation_transaction(program@, fee@, sender@)),
    {
        Submission::Built(build_activation_transaction(program, fee, sender))
    }

    /// What is to be done next.
    pub fn action(&self) -> (r: SubmitAction)
        ensures
            r == action_in(self@),
    {
        match self {
            Submission::Built(_) => SubmitAction::Send,
            Submission::Submitted => SubmitAction::AwaitReceipt,
            _ => SubmitAction::Stop,
        }
    }

    /// Whether the submission waits for `event`.
    pub fn awaits(&self, event: &SubmitEvent) -> (r: bool)
        ensures
            r == awaits(self@, *event),
    {
        match self {
            Submission::Built(_) => match event {
                SubmitEvent::Receipt(_) => false,
                _ => true,
            },
            Submission::Submitted => match event {
                SubmitEvent::Sent => false,
                _ => true,
            },
            _ => false,
        }
    }

    /// Takes in what the signer or the node reported.
    pub fn advance(self, event: SubmitEvent) -> (r: Submission)
        ensures
            r@ == next_state(self@, event),
    {
        match self {
            Submission::Built(tx) => match event {
                SubmitEvent::Sent => Submission::Submitted,
                SubmitEvent::Failed { detail } => Submission::TransportFailed { detail },
                SubmitEvent::Receipt(_) => Submission::Built(tx),
            },
            Submission::Submitted => match event {
                SubmitEvent::Receipt(Some(tx_hash)) => Submission::Confirmed { tx_hash },
                SubmitEvent::Receipt(None) => Submission::NotConfirmed,
                SubmitEvent::Failed { detail } => Submission::TransportFailed { detail },
                SubmitEvent::Sent => Submission::Submitted,
            },
            ended => ended,
        }
    }

    /// How the submission has ended: the hash of the confirmed transaction,
    /// or why there is none. `None` while it has not ended.
    pub fn result(self) -> (r: Option<Result<TxHash, ActivationError>>)
        ensures
            r is Some <==> is_terminal(self@),
            r matches Some(end) ==> result_of(self@) == Some(end_view(end)),
            r is None ==> result_of(self@) is None,
    {
        match self {
            Submission::Confirmed { tx_hash } => Some(Ok(tx_hash)),
            Submission::NotConfirmed => Some(Err(ActivationError::ActivationNotConfirmed)),
            Submission::TransportFailed { detail } => Some(
                Err(ActivationError::TransportError { detail }),
            ),
            _ => None,
        }
    }
}

/// Only what a submission waits for changes it.
pub proof fn lemma_unawaited_events_change_nothing(state: SubmissionView, event: SubmitEvent)
    requires
        !awaits(state, event),
    ensures
        next_state(state, event) == state,
{
}

/// A submission that has ended stays as it is, whatever is reported.
pub proof fn lemma_terminal_states_stay(state: SubmissionView, event: SubmitEvent)
    requires
        is_terminal(state),
    ensures
        next_state(state, event) == state,
{
}

/// A submission ends with the second report at the latest, and with the
/// first if that is a failure: nothing is tried again.
pub proof fn lemma_submission_ends(tx: TransactionView, first: SubmitEvent, second: SubmitEvent)
    requires
        first is Sent || first is Failed,
        second is Receipt || second is Failed,
    ensures
        first is Failed ==> is_terminal(next_state(SubmissionView::Built(tx), first)),
        is_terminal(next_state(next_state(SubmissionView::Built(tx), first), second)),
{
}

} // verus!
