use crate::address::Address;
use crate::config::{planned_submission, CommonConfig};
use crate::error::{error_text, ActivationError, ActivationErrorView};
use crate::hexadecimal::{hex_encode, hex_text};
use crate::overrides::{overrides, simulation_overrides, simulation_state, AccountOverride};
use crate::simulate::{
    build_estimation_call, estimate_activation_data_fee, estimated_fee, estimation_call, CallReply,
    CallRequest, CallRequestView, ErrorData,
};
use crate::submit::{
    action_in, awaits, is_terminal, next_state, result_of, SubmitAction, SubmitEvent, Submission,
    SubmissionView, TxHash,
};
use ethers::types::spoof::State;
use vstd::prelude::*;

verus! {

/// The part of an activation in which it can fail.
#[derive(Clone, Copy, Debug, PartialEq, Eq)]
pub enum Stage {
    /// No estimate of the data fee has come in.
    Estimation,
    /// The data fee is estimated, and the program is not activated.
    Submission,
}

/// Why an activation has failed, and in which part.
#[derive(Clone, Debug, PartialEq, Eq)]
pub struct Failure {
    pub stage: Stage,
    pub error: ActivationError,
}

/// A `Failure` with its texts as sequences of characters.
pub struct FailureView {
    pub stage: Stage,
    pub error: ActivationErrorView,
}

impl View for Failure {
    type V = FailureView;

    open spec fn view(&self) -> FailureView {
        FailureView { stage: self.stage, error: self.error@ }
    }
}

/// What a failure to activate `program` says in words: in which part the
/// activation failed, and why. A failure of the submission names the program.
pub open spec fn diagnostic_text(failure: FailureView, program: Seq<u8>) -> Seq<char> {
    match failure.stage {
        Stage::Estimation => "failed to check activation via spoofed eth_call: "@ + error_text(
            failure.error,
        ),
        Stage::Submission => "failed to activate program 0x"@ + hex_text(program) + ": "@
            + error_text(failure.error),
    }
}

impl Failure {
    /// What the failure to activate `program` says in words.
    pub fn diagnostic(&self, program: &Address) -> (r: String)
        ensures
            r@ == diagnostic_text(self@, program@),
    {
        let reason = self.error.message();
        match self.stage {
            Stage::Estimation => String::from_str(
                "failed to check activation via spoofed eth_call: ",
            ).concat(reason.as_str()),
            Stage::Submission => {
                let named = hex_encode(program.bytes.as_slice());
                String::from_str("failed to activate program 0x").concat(named.as_str()).concat(
                    ": ",
                ).concat(reason.as_str())
            },
        }
    }
}

/// Where the activation of a program stands.
///
/// It fetches the program's code, estimates the data fee with a simulated
/// call, submits the transaction that pays it, and ends as `Activated` or
/// `Failed`. Every step is taken once.
#[derive(Clone, Debug, PartialEq, Eq)]
pub enum Activation {
    /// The code at the program's address has been asked for.
    FetchingCode { sender: Address },
    /// The estimation call is with the node.
    Estimating { sender: Address },
    /// The activating transaction is being submitted.
    Submitting(Submission),
    /// The program is activated by the transaction of this hash.
    Activated { tx_hash: TxHash },
    /// The activation has failed.
    Failed(Failure),
}

/// An `Activation` as sequences.
pub enum ActivationView {
    FetchingCode { sender: Seq<u8> },
    Estimating { sender: Seq<u8> },
    Submitting(SubmissionView),
    Activated { tx_hash: Seq<u8> },
    Failed(FailureView),
}

impl View for Activation {
    type V = ActivationView;

    open spec fn view(&self) -> ActivationView {
        match *self {
            Activation::FetchingCode { sender } => ActivationView::FetchingCode { sender: sender@ },
            Activation::Estimating { sender } => ActivationView::Estimating { sender: sender@ },
            Activation::Submitting(submission) => ActivationView::Submitting(submission@),
            Activation::Activated { tx_hash } => ActivationView::Activated { tx_hash: tx_hash@ },
            Activation::Failed(failure) => ActivationView::Failed(failure@),
        }
    }
}

/// What the node and the signer report back.
#[derive(Clone, Debug, PartialEq, Eq)]
pub enum Event {
    /// The code at the program's address.
    Code(Vec<u8>),
    /// The node's answer to the estimation call.
    Reply(CallReply),
    /// The signer has signed and sent the transaction.
    Sent,
    /// The wait for the receipt is over: with the hash of the transaction
    /// that the receipt names, or without a receipt.
    Receipt(Option<TxHash>),
    /// What was under way has failed.
    Failed { detail: String },
}

/// What is to be done next for an activation.
#[derive(Debug, PartialEq, Eq)]
pub enum Command {
    /// Ask the node for the code at `program`.
    FetchCode { program: Address },
    /// Have the node run `call` on its latest state with `state` in place.
    Simulate { call: CallRequest, state: State },
    /// Hand the transaction that the submission has built to the signer.
    Send,
    /// Wait for the receipt.
    AwaitReceipt,
    /// Nothing new: go on with what is under way.
    Nothing,
    /// Nothing: the activation has ended.
    Stop,
}

/// A `Command` as sequences, with a state override set as the overrides
/// that it holds.
pub enum CommandView {
    FetchCode { program: Seq<u8> },
    Simulate { call: CallRequestView, overrides: Map<Seq<u8>, AccountOverride> },
    Send,
    AwaitReceipt,
    Nothing,
    Stop,
}

impl View for Command {
    type V = CommandView;

    open spec fn view(&self) -> CommandView {
        match *self {
            Command::FetchCode { program } => CommandView::FetchCode { program: program@ },
            Command::Simulate { call, state } => CommandView::Simulate {
                call: call@,
                overrides: overrides(state),
            },
            Command::Send => CommandView::Send,
            Command::AwaitReceipt => CommandView::AwaitReceipt,
            Command::Nothing => CommandView::Nothing,
            Command::Stop => CommandView::Stop,
        }
    }
}

/// Whether the activation has ended.
pub open spec fn is_over(state: ActivationView) -> bool {
    state is Activated || state is Failed
}

/// Whether `state` is one that an activation can be in: while it submits,
/// the submission has not ended.
pub open spec fn well_formed(state: ActivationView) -> bool {
    state matches ActivationView::Submitting(submission) ==> !is_terminal(submission)
}

/// How an activation begins: the code of the configured program is asked for.
pub open spec fn beginning(cfg: CommonConfig, sender: Seq<u8>) -> (ActivationView, CommandView) {
    (ActivationView::FetchingCode { sender }, CommandView::FetchCode { program: cfg.address@ })
}

/// The end of an activation with `error`, in the part `stage`.
pub open spec fn failure(stage: Stage, error: ActivationErrorView) -> (
    ActivationView,
    CommandView,
) {
    (ActivationView::Failed(FailureView { stage, error }), CommandView::Stop)
}

/// `event` as the submission takes it, if it is one for the submission.
pub open spec fn submit_event(event: Event) -> Option<SubmitEvent> {
    match event {
        Event::Sent => Some(SubmitEvent::Sent),
        Event::Receipt(receipt) => Some(SubmitEvent::Receipt(receipt)),
        Event::Failed { detail } => Some(SubmitEvent::Failed { detail }),
        _ => None,
    }
}

/// Where an activation stands once its submission has come to `after`, and
/// what is to be done then.
pub open spec fn submitted(after: SubmissionView) -> (ActivationView, CommandView) {
    match result_of(after) {
        Some(Ok(tx_hash)) => (ActivationView::Activated { tx_hash }, CommandView::Stop),
        Some(Err(error)) => failure(Stage::Submission, error),
        None => (
            ActivationView::Submitting(after),
            match action_in(after) {
                SubmitAction::Send => CommandView::Send,
                SubmitAction::AwaitReceipt => CommandView::AwaitReceipt,
                SubmitAction::Stop => CommandView::Stop,
            },
        ),
    }
}

/// The state that follows `state` when `event` is reported, and what is to
/// be done then. An event that the state does not wait for changes nothing
/// and asks for nothing; a failure of what is under way ends the activation.
pub open spec fn next(cfg: CommonConfig, state: ActivationView, event: Event) -> (
    ActivationView,
    CommandView,
) {
    match state {
        ActivationView::FetchingCode { sender } => match event {
            Event::Code(code) => (
                ActivationView::Estimating { sender },
                CommandView::Simulate {
                    call: estimation_call(cfg.address@),
                    overrides: simulation_overrides(cfg.address@, code@),
                },
            ),
            Event::Failed { detail } => failure(
                Stage::Estimation,
                ActivationErrorView::TransportError { detail: detail@ },
            ),
            _ => (state, CommandView::Nothing),
        },
        ActivationView::Estimating { sender } => match event {
            Event::Reply(reply) => match estimated_fee(reply) {
                Ok(estimate) => match planned_submission(cfg, estimate, sender) {
                    Some(built) => (ActivationView::Submitting(built), CommandView::Send),
                    None => failure(Stage::Submission, ActivationErrorView::FeeOutOfRange),
                },
                Err(error) => failure(Stage::Estimation, error),
            },
            Event::Failed { detail } => failure(
                Stage::Estimation,
                ActivationErrorView::TransportError { detail: detail@ },
            ),
            _ => (state, CommandView::Nothing),
        },
        ActivationView::Submitting(submission) => match submit_event(event) {
            Some(report) => if awaits(submission, report) {
                submitted(next_state(submission, report))
            } else {
                (state, CommandView::Nothing)
            },
            None => (state, CommandView::Nothing),
        },
        _ => (state, CommandView::Stop),
    }
}

impl Activation {
    /// Begins the activation of the configured program, with `sender` as the
    /// address of the signer.
    pub fn begin(cfg: &CommonConfig, sender: Address) -> (r: (Activation, Command))
        ensures
            (r.0@, r.1@) == beginning(*cfg, sender@),
    {
        (Activation::FetchingCode { sender }, Command::FetchCode { program: cfg.address })
    }

    /// Takes in what the node or the signer reported, and tells what is to
    /// be done next.
    pub fn step(self, cfg: &CommonConfig, event: Event) -> (r: (Activation, Command))
        ensures
            (r.0@, r.1@) == next(*cfg, self@, event),
    {
        match self {
            Activation::FetchingCode { sender } => match event {
                Event::Code(code) => {
                    let call = build_estimation_call(&cfg.address);
                    let state = simulation_state(&cfg.address, &code);
                    (Activation::Estimating { sender }, Command::Simulate { call, state })
                },
                Event::Failed { detail } => fail(
                    Stage::Estimation,
                    ActivationError::TransportError { detail },
                ),
                _ => (Activation::FetchingCode { sender }, Command::Nothing),
            },
            Activation::Estimating { sender } => match event {
                Event::Reply(reply) => match estimate_activation_data_fee(reply) {
                    Ok(estimate) => match cfg.submission(estimate, &sender) {
                        Some(built) => (Activation::Submitting(built), Command::Send),
                        None => fail(Stage::Submission, ActivationError::FeeOutOfRange),
                    },
                    Err(error) => fail(Stage::Estimation, error),
                },
                Event::Failed { detail } => fail(
                    Stage::Estimation,
                    ActivationError::TransportError { detail },
                ),
                _ => (Activation::Estimating { sender }, Command::Nothing),
            },
            Activation::Submitting(submission) => match event {
                Event::Sent => submit(submission, SubmitEvent::Sent),
                Event::Receipt(receipt) => submit(submission, SubmitEvent::Receipt(receipt)),
                Event::Failed { detail } => submit(submission, SubmitEvent::Failed { detail }),
                _ => (Activation::Submitting(submission), Command::Nothing),
            },
            ended => (ended, Command::Stop),
        }
    }

    /// How the activation has ended: the hash of the activating transaction,
    /// or why the program is not activated. `None` while it has not ended.
    pub fn outcome(self) -> (r: Option<Result<TxHash, Failure>>)
        ensures
            r is Some <==> is_over(self@),
            r matches Some(Ok(tx_hash)) ==> self@ == (ActivationView::Activated {
                tx_hash: tx_hash@,
            }),
            r matches Some(Err(failure)) ==> self@ == ActivationView::Failed(failure@),
    {
        match self {
            Activation::Activated { tx_hash } => Some(Ok(tx_hash)),
            Activation::Failed(failure) => Some(Err(failure)),
            _ => None,
        }
    }
}

/// Ends the activation with `error`, in the part `stage`.
fn fail(stage: Stage, error: ActivationError) -> (r: (Activation, Command))
    ensures
        (r.0@, r.1@) == failure(stage, error@),
{
    (Activation::Failed(Failure { stage, error }), Command::Stop)
}

/// Hands `report` to the submission, if it waits for it.
fn submit(submission: Submission, report: SubmitEvent) -> (r: (Activation, Command))
    ensures
        (r.0@, r.1@) == if awaits(submission@, report) {
            submitted(next_state(submission@, report))
        } else {
            (ActivationView::Submitting(submission@), CommandView::Nothing)
        },
{
    if !submission.awaits(&report) {
        return (Activation::Submitting(submission), Command::Nothing);
    }
    match submission.advance(report) {
        Submission::Built(tx) => (Activation::Submitting(Submission::Built(tx)), Command::Send),
        Submission::Submitted => (
            Activation::Submitting(Submission::Submitted),
            Command::AwaitReceipt,
        ),
        Submission::Confirmed { tx_hash } => (Activation::Activated { tx_hash }, Command::Stop),
        Submission::NotConfirmed => fail(
            Stage::Submission,
            ActivationError::ActivationNotConfirmed,
        ),
        Submission::TransportFailed { detail } => fail(
            Stage::Submission,
            ActivationError::TransportError { detail },
        ),
    }
}

/// An activation that has ended stays as it is, whatever is reported, and
/// asks for nothing more.
pub proof fn lemma_ended_activation_stays(cfg: CommonConfig, state: ActivationView, event: Event)
    requires
        is_over(state),
    ensures
        next(cfg, state, event) == (state, CommandView::Stop),
{
}

/// While an activation submits, its submission has not ended: this holds at
/// the beginning and after every step.
pub proof fn lemma_steps_keep_well_formed(
    cfg: CommonConfig,
    sender: Seq<u8>,
    state: ActivationView,
    event: Event,
)
    requires
        well_formed(state),
    ensures
        well_formed(beginning(cfg, sender).0),
        well_formed(next(cfg, state, event).0),
{
}

/// A transaction is handed to the signer only when the estimate has come
/// in: it is then the transaction that activates the configured program and
/// pays the estimate with the configured bump.
pub proof fn lemma_only_an_estimate_leads_to_sending(
    cfg: CommonConfig,
    state: ActivationView,
    event: Event,
)
    requires
        well_formed(state),
        next(cfg, state, event).1 is Send,
    ensures
        state is Estimating,
        event is Reply,
        estimated_fee(event->Reply_0) is Ok,
        planned_submission(cfg, estimated_fee(event->Reply_0)->Ok_0, state->Estimating_sender)
            == Some(next(cfg, state, event).0->Submitting_0),
{
}

/// No step is taken twice: where a failure is reported, the activation ends
/// with it, whatever was under way.
pub proof fn lemma_failure_ends_the_activation(
    cfg: CommonConfig,
    state: ActivationView,
    detail: String,
)
    requires
        well_formed(state),
        !is_over(state),
    ensures
        next(cfg, state, Event::Failed { detail }).0 matches ActivationView::Failed(failure)
            && failure.error == (ActivationErrorView::TransportError { detail: detail@ }),
        next(cfg, state, Event::Failed { detail }).1 is Stop,
{
}

/// A failure names the part in which it came about: it is one of the
/// submission where the estimate had come in, and one of the estimation
/// where it had not.
pub proof fn lemma_failures_name_their_stage(
    cfg: CommonConfig,
    state: ActivationView,
    event: Event,
)
    requires
        well_formed(state),
        !is_over(state),
        next(cfg, state, event).0 is Failed,
    ensures
        next(cfg, state, event).0->Failed_0.stage is Submission <==> state is Submitting || (
        state is Estimating && event is Reply && estimated_fee(event->Reply_0) is Ok),
{
}

/// An error response of the node to the estimation call ends the
/// activation as a failure of the estimation, with the node's message or as
/// malformed: no transaction is built, and none is sent.
pub proof fn lemma_error_response_ends_the_activation(
    cfg: CommonConfig,
    sender: Seq<u8>,
    message: String,
    data: ErrorData,
)
    ensures
        next(
            cfg,
            ActivationView::Estimating { sender },
            Event::Reply(CallReply::ErrorResponse { message, data }),
        ) == failure(
            Stage::Estimation,
            estimated_fee(CallReply::ErrorResponse { message, data })->Err_0,
        ),
        estimated_fee(CallReply::ErrorResponse { message, data })->Err_0 is SimulationReverted
            || estimated_fee(CallReply::ErrorResponse { message, data })->Err_0
            is MalformedRpcError,
{
}

} // verus!
