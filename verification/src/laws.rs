//! What holds of the relay as a whole.
//!
//! Each law here is proved from the definitions that the contracts of the
//! library are stated in. Read together with those contracts they say what
//! the executable functions do on every input.

use vstd::prelude::*;

use crate::bwhc_client::HttpResponseView;
use crate::error::ParseError;
use crate::json::{json_parse, json_text, member, Json};
use crate::pipeline::{
    next, routed, ActionView, EventView, OperationView, PipelineResultView, PipelineStateView,
};
use crate::resources::mtbfile::{consent_of, Status};
use crate::resources::request::{correlation_member, decode_envelope, dispatchable};
use crate::response::{composed, DispatchOutcomeView, ResponseEnvelopeView};
use crate::text::blank;

verus! {

/// The actions that a run of events leads to from `state` on, one for each
/// event.
pub open spec fn actions(state: PipelineStateView, events: Seq<EventView>) -> Seq<ActionView>
    decreases events.len(),
{
    if events.len() == 0 {
        Seq::empty()
    } else {
        let (following, action) = next(state, events[0]);
        seq![action] + actions(following, events.drop_first())
    }
}

/// How many of the actions invoke an operation on the registry.
pub open spec fn invocations(run: Seq<ActionView>) -> nat
    decreases run.len(),
{
    if run.len() == 0 {
        0
    } else {
        invocations(run.drop_first()) + if run[0] is Invoke {
            1nat
        } else {
            0nat
        }
    }
}

/// How many of the actions hand out an envelope to be published.
pub open spec fn publications(run: Seq<ActionView>) -> nat
    decreases run.len(),
{
    if run.len() == 0 {
        0
    } else {
        publications(run.drop_first()) + if run[0] matches ActionView::Report(
            PipelineResultView::Dispatched(_, _),
        ) {
            1nat
        } else {
            0nat
        }
    }
}

/// A run unfolds from its first event.
proof fn lemma_first_step(state: PipelineStateView, first: EventView, later: Seq<EventView>)
    ensures
        actions(state, seq![first] + later) == seq![next(state, first).1] + actions(
            next(state, first).0,
            later,
        ),
{
    assert((seq![first] + later).drop_first() =~= later);
}

/// The counts of a run are those of its first action and of the rest.
proof fn lemma_first_counted(first: ActionView, rest: Seq<ActionView>)
    ensures
        invocations(seq![first] + rest) == invocations(rest) + if first is Invoke {
            1nat
        } else {
            0nat
        },
        publications(seq![first] + rest) == publications(rest) + if first matches ActionView::Report(
            PipelineResultView::Dispatched(_, _),
        ) {
            1nat
        } else {
            0nat
        },
{
    assert((seq![first] + rest).drop_first() =~= rest);
}

/// Where no invocation is counted, no action is an invocation.
proof fn lemma_counted_invocations(run: Seq<ActionView>)
    requires
        invocations(run) == 0,
    ensures
        forall|i: int| 0 <= i < run.len() ==> !(#[trigger] run[i] is Invoke),
    decreases run.len(),
{
    if run.len() > 0 {
        lemma_counted_invocations(run.drop_first());
        assert forall|i: int| 0 <= i < run.len() implies !(#[trigger] run[i] is Invoke) by {
            if i > 0 {
                assert(run[i] == run.drop_first()[i - 1]);
            }
        }
    }
}

/// The consent's status alone selects the operation. A message that can be
/// dispatched is answered by one invocation: of `Submit` with the payload
/// in compact text where the consent is active, and of `Delete` with the
/// subject's identifier where it is rejected. The relay then awaits the
/// outcome, holding the message's request id and transport key.
pub proof fn law_status_selects_operation(raw: Seq<char>, correlation_key: Seq<char>)
    requires
        dispatchable(raw),
    ensures
        ({
            let request = decode_envelope(raw)->0;
            let consent = consent_of(request.content)->0;
            let (state, action) = next(
                PipelineStateView::Received,
                EventView::Message { raw, correlation_key },
            );
            &&& state == PipelineStateView::Dispatched {
                request_id: request.request_id,
                correlation_key,
            }
            &&& consent.status == Status::Active ==> action == ActionView::Invoke(
                OperationView::Submit { content: json_text(request.content) },
            )
            &&& consent.status == Status::Rejected ==> action == ActionView::Invoke(
                OperationView::Delete { subject_id: consent.subject_id },
            )
        }),
{
}

/// In every run of events the registry is called at most once and at most
/// one envelope is handed out. Only a relay that has looked at nothing yet
/// can call the registry, a relay that has ended hands out nothing more,
/// and from the start no envelope is handed out without a call before it.
pub proof fn law_one_call_one_answer(state: PipelineStateView, events: Seq<EventView>)
    ensures
        invocations(actions(state, events)) <= 1,
        publications(actions(state, events)) <= 1,
        !(state is Received) ==> invocations(actions(state, events)) == 0,
        state is Composed || state is ParseFailed ==> publications(actions(state, events)) == 0,
        state is Received ==> publications(actions(state, events)) <= invocations(
            actions(state, events),
        ),
    decreases events.len(),
{
    if events.len() > 0 {
        let (following, action) = next(state, events[0]);
        law_one_call_one_answer(following, events.drop_first());
        lemma_first_counted(action, actions(following, events.drop_first()));
    }
}

/// A message that can be dispatched has the registry called exactly once:
/// at once, by the operation that its consent selects, and by no other
/// operation after that, whatever events follow.
pub proof fn law_dispatchable_message_calls_once(
    raw: Seq<char>,
    correlation_key: Seq<char>,
    later: Seq<EventView>,
)
    requires
        dispatchable(raw),
    ensures
        ({
            let request = decode_envelope(raw)->0;
            let consent = consent_of(request.content)->0;
            let run = actions(
                PipelineStateView::Received,
                seq![EventView::Message { raw, correlation_key }] + later,
            );
            &&& run.len() > 0
            &&& run[0] == ActionView::Invoke(routed(request, consent))
            &&& invocations(run) == 1
            &&& forall|i: int| 0 < i < run.len() ==> !(#[trigger] run[i] is Invoke)
        }),
{
    let first = EventView::Message { raw, correlation_key };
    let (awaiting, invoke) = next(PipelineStateView::Received, first);
    let rest = actions(awaiting, later);
    lemma_first_step(PipelineStateView::Received, first, later);
    lemma_first_counted(invoke, rest);
    law_one_call_one_answer(awaiting, later);
    lemma_counted_invocations(rest);
    let run = seq![invoke] + rest;
    assert forall|i: int| 0 < i < run.len() implies !(#[trigger] run[i] is Invoke) by {
        assert(run[i] == rest[i - 1]);
    }
}

/// A message that can be dispatched is answered exactly once. After the
/// outcome of the call the composed envelope is handed out under the
/// transport key of the message, and nothing is called or handed out after
/// that, whatever events follow.
pub proof fn law_dispatched_message_is_answered_once(
    raw: Seq<char>,
    correlation_key: Seq<char>,
    outcome: DispatchOutcomeView,
    later: Seq<EventView>,
)
    requires
        dispatchable(raw),
    ensures
        ({
            let request = decode_envelope(raw)->0;
            let run = actions(
                PipelineStateView::Received,
                seq![EventView::Message { raw, correlation_key }, EventView::Outcome(outcome)]
                    + later,
            );
            &&& run.len() > 1
            &&& run[1] == ActionView::Report(
                PipelineResultView::Dispatched(
                    composed(request.request_id, outcome),
                    correlation_key,
                ),
            )
            &&& invocations(run) == 1
            &&& publications(run) == 1
        }),
{
    let first = EventView::Message { raw, correlation_key };
    let second = EventView::Outcome(outcome);
    let (awaiting, invoke) = next(PipelineStateView::Received, first);
    let (ended, answer) = next(awaiting, second);
    let rest = actions(ended, later);
    assert(seq![first, second] + later =~= seq![first] + (seq![second] + later));
    lemma_first_step(PipelineStateView::Received, first, seq![second] + later);
    lemma_first_step(awaiting, second, later);
    lemma_first_counted(invoke, seq![answer] + rest);
    lemma_first_counted(answer, rest);
    law_one_call_one_answer(ended, later);
}

/// A message that cannot be dispatched is refused as malformed at once:
/// the registry is not called and no envelope is handed out, whatever
/// events follow.
pub proof fn law_refused_message_is_silent(
    raw: Seq<char>,
    correlation_key: Seq<char>,
    later: Seq<EventView>,
)
    requires
        !dispatchable(raw),
    ensures
        next(PipelineStateView::Received, EventView::Message { raw, correlation_key }) == (
            PipelineStateView::ParseFailed,
            ActionView::Report(PipelineResultView::Rejected(ParseError::Malformed)),
        ),
        ({
            let run = actions(
                PipelineStateView::Received,
                seq![EventView::Message { raw, correlation_key }] + later,
            );
            invocations(run) == 0 && publications(run) == 0
        }),
{
    let first = EventView::Message { raw, correlation_key };
    let (ended, report) = next(PipelineStateView::Received, first);
    lemma_first_step(PipelineStateView::Received, first, later);
    lemma_first_counted(report, actions(ended, later));
    law_one_call_one_answer(ended, later);
}

/// A document that has neither `request_id` nor `requestId`, or has no
/// `content`, holds no envelope: the message cannot be dispatched and the
/// relay refuses it.
pub proof fn law_missing_member_refused(raw: Seq<char>, correlation_key: Seq<char>)
    requires
        json_parse(raw) matches Some(doc) && ((member(doc, "request_id"@) is None && member(
            doc,
            "requestId"@,
        ) is None) || member(doc, "content"@) is None),
    ensures
        decode_envelope(raw) is None,
        !dispatchable(raw),
        next(PipelineStateView::Received, EventView::Message { raw, correlation_key }) == (
            PipelineStateView::ParseFailed,
            ActionView::Report(PipelineResultView::Rejected(ParseError::Malformed)),
        ),
{
}

/// A message whose payload has no member `consent`, or whose consent has
/// no status that is one of the two recognised literals, cannot be
/// dispatched.
pub proof fn law_unusable_consent_refused(raw: Seq<char>)
    requires
        decode_envelope(raw) matches Some(request) && (member(request.content, "consent"@)
            matches Some(consent) ==> !(member(consent, "status"@) matches Some(Json::Text(wire))
            && (wire == "active"@ || wire == "rejected"@))),
    ensures
        !dispatchable(raw),
{
}

/// A blank body is answered by the empty object. The empty text is blank,
/// and so is a single space.
pub proof fn law_blank_body_is_empty_object(
    request_id: Seq<char>,
    status_code: u16,
    status_body: Seq<char>,
)
    requires
        blank(status_body),
    ensures
        composed(
            request_id,
            DispatchOutcomeView::Success(HttpResponseView { status_code, status_body }),
        ) == (ResponseEnvelopeView { request_id, status_code, status_body: "{}"@ }),
        blank(""@),
        blank(" "@),
{
    reveal_strlit("");
    reveal_strlit(" ");
}

/// An unreachable registry is answered by the sentinel status and the fixed
/// issue body, whatever the request id.
pub proof fn law_unreachable_is_fixed(request_id: Seq<char>)
    ensures
        composed(request_id, DispatchOutcomeView::Unreachable) == (ResponseEnvelopeView {
            request_id,
            status_code: 900,
            status_body:
                "{\"issues\":[{\"severity\":\"error\",\"message\":\"No HTTP connection\"}]}"@,
        }),
{
}

/// The request id makes the round trip unchanged. The text that stood
/// under the correlation member of a dispatched message is the request id
/// of the envelope that answers it, and the envelope is handed out under
/// the transport key of the message, whatever the outcome.
pub proof fn law_request_id_round_trip(
    raw: Seq<char>,
    correlation_key: Seq<char>,
    outcome: DispatchOutcomeView,
)
    requires
        dispatchable(raw),
    ensures
        ({
            let (awaiting, _) = next(
                PipelineStateView::Received,
                EventView::Message { raw, correlation_key },
            );
            let (ended, answer) = next(awaiting, EventView::Outcome(outcome));
            &&& ended == PipelineStateView::Composed
            &&& answer matches ActionView::Report(PipelineResultView::Dispatched(envelope, key))
            &&& correlation_member(json_parse(raw)->0) == Some(Json::Text(envelope.request_id))
            &&& envelope == composed(envelope.request_id, outcome)
            &&& key == correlation_key
        }),
{
}

} // verus!
