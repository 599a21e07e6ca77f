//! The relay of one message, as a state machine.
//!
//! The relay itself neither calls the registry nor publishes anything. It
//! is handed what happened, an `Event`, and says what is to be done next, an
//! `Action`; whoever drives it performs the action and hands back what came
//! of it. One machine relays one message: it starts in `Received` and keeps
//! nothing once its message is answered or refused.

use vstd::prelude::*;
use vstd::string::StringExecFns;

use crate::error::ParseError;
use crate::json::json_text;
use crate::resources::mtbfile::{consent_of, ConsentRecord, MTBFileWithConsent, Status};
use crate::resources::request::{decode_envelope, dispatchable, Request, RequestView};
use crate::response::{
    compose, composed, DispatchOutcome, DispatchOutcomeView, ResponseEnvelope,
    ResponseEnvelopeView,
};

verus! {

/// One operation on the registry.
#[derive(Debug, PartialEq, Eq)]
pub enum Operation {
    /// Store the record given as JSON text.
    Submit { content: String },
    /// Remove the record of a subject. No payload is sent.
    Delete { subject_id: String },
}

/// An operation on the registry, as a mathematical value.
pub enum OperationView {
    Submit { content: Seq<char> },
    Delete { subject_id: Seq<char> },
}

impl View for Operation {
    type V = OperationView;

    open spec fn view(&self) -> OperationView {
        match self {
            Operation::Submit { content } => OperationView::Submit { content: content@ },
            Operation::Delete { subject_id } => OperationView::Delete { subject_id: subject_id@ },
        }
    }
}

/// The operation that a request calls for. The consent's status alone
/// decides: an active consent has the whole payload stored, a rejected one
/// has the subject's record removed.
pub open spec fn routed(request: RequestView, consent: ConsentRecord) -> OperationView {
    match consent.status {
        Status::Active => OperationView::Submit { content: json_text(request.content) },
        Status::Rejected => OperationView::Delete { subject_id: consent.subject_id },
    }
}

/// Selects the operation that a request calls for under its consent.
pub fn route(request: &Request, consent: &MTBFileWithConsent) -> (r: Operation)
    ensures
        r@ == routed(request@, consent@),
{
    if consent.has_consent() {
        Operation::Submit { content: request.content_string() }
    } else {
        Operation::Delete { subject_id: consent.patient_id() }
    }
}

/// How the relay of a message ended.
#[derive(Debug, PartialEq, Eq)]
pub enum PipelineResult {
    /// The registry was called and the envelope is to be published under
    /// the correlation key of the message.
    Dispatched(ResponseEnvelope, String),
    /// The message was refused. Nothing is to be published.
    Rejected(ParseError),
}

/// The end of a relay, as a mathematical value.
pub enum PipelineResultView {
    Dispatched(ResponseEnvelopeView, Seq<char>),
    Rejected(ParseError),
}

impl View for PipelineResult {
    type V = PipelineResultView;

    open spec fn view(&self) -> PipelineResultView {
        match self {
            PipelineResult::Dispatched(envelope, key) => PipelineResultView::Dispatched(
                envelope@,
                key@,
            ),
            PipelineResult::Rejected(reason) => PipelineResultView::Rejected(*reason),
        }
    }
}

/// Where the relay of a message stands.
#[derive(Debug, PartialEq, Eq)]
pub enum PipelineState {
    /// Nothing has been looked at yet.
    Received,
    /// The operation on the registry has been asked for and its outcome is
    /// awaited.
    Dispatched { request_id: String, correlation_key: String },
    /// The message has been answered. Final.
    Composed,
    /// The message has been refused. Final.
    ParseFailed,
}

/// A state of the relay, as a mathematical value.
pub enum PipelineStateView {
    Received,
    Dispatched { request_id: Seq<char>, correlation_key: Seq<char> },
    Composed,
    ParseFailed,
}

impl View for PipelineState {
    type V = PipelineStateView;

    open spec fn view(&self) -> PipelineStateView {
        match self {
            PipelineState::Received => PipelineStateView::Received,
            PipelineState::Dispatched {
                request_id,
                correlation_key,
            } => PipelineStateView::Dispatched {
                request_id: request_id@,
                correlation_key: correlation_key@,
            },
            PipelineState::Composed => PipelineStateView::Composed,
            PipelineState::ParseFailed => PipelineStateView::ParseFailed,
        }
    }
}

/// What happened outside the relay.
#[derive(Debug, PartialEq, Eq)]
pub enum Event {
    /// A message arrived, with its body and its transport key.
    Message { raw: String, correlation_key: String },
    /// The operation on the registry ended.
    Outcome(DispatchOutcome),
}

/// An event, as a mathematical value.
pub enum EventView {
    Message { raw: Seq<char>, correlation_key: Seq<char> },
    Outcome(DispatchOutcomeView),
}

impl View for Event {
    type V = EventView;

    open spec fn view(&self) -> EventView {
        match self {
            Event::Message { raw, correlation_key } => EventView::Message {
                raw: raw@,
                correlation_key: correlation_key@,
            },
            Event::Outcome(outcome) => EventView::Outcome(outcome@),
        }
    }
}

/// The part of a bus message that the relay cannot use: it is absent, or
/// it is no text.
#[derive(Clone, Copy, Debug, PartialEq, Eq, Structural)]
pub enum Unusable {
    Payload,
    Key,
}

impl Event {
    /// The event for a message taken from the bus. The message needs a body
    /// and a transport key, both as text; the body is looked at first.
    pub fn from_message(payload: Option<&str>, key: Option<&str>) -> (r: Result<Event, Unusable>)
        ensures
            match (payload, key) {
                (Some(raw), Some(correlation_key)) => r matches Ok(event) && event@ == (
                EventView::Message { raw: raw@, correlation_key: correlation_key@ }),
                (Some(_), None) => r == Err::<Event, Unusable>(Unusable::Key),
                (None, _) => r == Err::<Event, Unusable>(Unusable::Payload),
            },
    {
        match payload {
            Some(raw) => match key {
                Some(correlation_key) => Ok(
                    Event::Message {
                        raw: String::from_str(raw),
                        correlation_key: String::from_str(correlation_key),
                    },
                ),
                None => Err(Unusable::Key),
            },
            None => Err(Unusable::Payload),
        }
    }
}

/// What the driver of the relay is to do next.
#[derive(Debug, PartialEq, Eq)]
pub enum Action {
    /// Perform this operation on the registry and hand back its outcome.
    Invoke(Operation),
    /// The relay of the message has ended: publish or log, then go on to
    /// the next message.
    Report(PipelineResult),
    /// Nothing: the event was not awaited and has been dropped.
    Idle,
}

/// An action, as a mathematical value.
pub enum ActionView {
    Invoke(OperationView),
    Report(PipelineResultView),
    Idle,
}

impl View for Action {
    type V = ActionView;

    open spec fn view(&self) -> ActionView {
        match self {
            Action::Invoke(operation) => ActionView::Invoke(operation@),
            Action::Report(result) => ActionView::Report(result@),
            Action::Idle => ActionView::Idle,
        }
    }
}

/// What a message that has just arrived leads to.
///
/// A message that can be dispatched has its operation invoked, and its
/// request id and transport key are kept for the answer. Any other message
/// is refused as malformed.
pub open spec fn admitted(raw: Seq<char>, correlation_key: Seq<char>) -> (
    PipelineStateView,
    ActionView,
) {
    match decode_envelope(raw) {
        Some(request) => match consent_of(request.content) {
            Some(consent) => (
                PipelineStateView::Dispatched { request_id: request.request_id, correlation_key },
                ActionView::Invoke(routed(request, consent)),
            ),
            None => (
                PipelineStateView::ParseFailed,
                ActionView::Report(PipelineResultView::Rejected(ParseError::Malformed)),
            ),
        },
        None => (
            PipelineStateView::ParseFailed,
            ActionView::Report(PipelineResultView::Rejected(ParseError::Malformed)),
        ),
    }
}

/// The transition of the relay: the state and the action that follow
/// `event` in `state`.
///
/// A message is looked at only in `Received`, and an outcome only in
/// `Dispatched`, where it is answered by the composed envelope under the
/// message's own transport key. Every other event is dropped and leaves the
/// state as it is.
pub open spec fn next(state: PipelineStateView, event: EventView) -> (
    PipelineStateView,
    ActionView,
) {
    match (state, event) {
        (PipelineStateView::Received, EventView::Message { raw, correlation_key }) => admitted(
            raw,
            correlation_key,
        ),
        (
            PipelineStateView::Dispatched { request_id, correlation_key },
            EventView::Outcome(outcome),
        ) => (
            PipelineStateView::Composed,
            ActionView::Report(
                PipelineResultView::Dispatched(composed(request_id, outcome), correlation_key),
            ),
        ),
        _ => (state, ActionView::Idle),
    }
}

fn admit_message(raw: &str, correlation_key: String) -> (r: (PipelineState, Action))
    ensures
        (r.0@, r.1@) == admitted(raw@, correlation_key@),
{
    let request = match Request::from_str(raw) {
        Ok(request) => request,
        Err(reason) => {
            return (PipelineState::ParseFailed, Action::Report(PipelineResult::Rejected(reason)));
        },
    };
    let consent = match request.consent() {
        Ok(consent) => consent,
        Err(reason) => {
            return (PipelineState::ParseFailed, Action::Report(PipelineResult::Rejected(reason)));
        },
    };
    let operation = route(&request, &consent);
    (
        PipelineState::Dispatched { request_id: request.request_id(), correlation_key },
        Action::Invoke(operation),
    )
}

/// Takes the relay one step: looks at `event` in `state`, and returns the
/// state that follows and what is to be done.
pub fn handle(state: PipelineState, event: Event) -> (r: (PipelineState, Action))
    ensures
        (r.0@, r.1@) == next(state@, event@),
{
    match state {
        PipelineState::Received => match event {
            Event::Message { raw, correlation_key } => admit_message(
                raw.as_str(),
                correlation_key,
            ),
            Event::Outcome(_) => (PipelineState::Received, Action::Idle),
        },
        PipelineState::Dispatched { request_id, correlation_key } => match event {
            Event::Outcome(outcome) => {
                let envelope = compose(request_id.as_str(), &outcome);
                (
                    PipelineState::Composed,
                    Action::Report(PipelineResult::Dispatched(envelope, correlation_key)),
                )
            },
            Event::Message { .. } => (
                PipelineState::Dispatched { request_id, correlation_key },
                Action::Idle,
            ),
        },
        PipelineState::Composed => (PipelineState::Composed, Action::Idle),
        PipelineState::ParseFailed => (PipelineState::ParseFailed, Action::Idle),
    }
}

} // verus!
