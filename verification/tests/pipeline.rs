use bwhc_kafka_rest_proxy::bwhc_client::HttpResponse;
use bwhc_kafka_rest_proxy::error::ParseError;
use bwhc_kafka_rest_proxy::pipeline::{
    handle, route, Action, Event, Operation, PipelineResult, PipelineState, Unusable,
};
use bwhc_kafka_rest_proxy::resources::request::Request;
use bwhc_kafka_rest_proxy::response::DispatchOutcome;

const ACTIVE: &str =
    r#"{"requestId":"r1","content":{"consent":{"status":"active","patient":"p1"}}}"#;

const REJECTED: &str =
    r#"{"requestId":"r2","content":{"consent":{"status":"rejected","patient":"p2"}}}"#;

fn message(raw: &str, correlation_key: &str) -> Event {
    Event::Message {
        raw: raw.to_string(),
        correlation_key: correlation_key.to_string(),
    }
}

fn answered(status_code: u16, status_body: &str) -> Event {
    Event::Outcome(DispatchOutcome::Success(HttpResponse {
        status_code,
        status_body: status_body.to_string(),
    }))
}

fn awaiting(request_id: &str, correlation_key: &str) -> PipelineState {
    PipelineState::Dispatched {
        request_id: request_id.to_string(),
        correlation_key: correlation_key.to_string(),
    }
}

fn refused() -> (PipelineState, Action) {
    (
        PipelineState::ParseFailed,
        Action::Report(PipelineResult::Rejected(ParseError::Malformed)),
    )
}

#[test]
fn should_submit_payload_of_active_consent() {
    let (state, action) = handle(PipelineState::Received, message(ACTIVE, "key-1"));

    assert_eq!(state, awaiting("r1", "key-1"));
    assert_eq!(
        action,
        Action::Invoke(Operation::Submit {
            content: r#"{"consent":{"patient":"p1","status":"active"}}"#.to_string()
        })
    );
}

#[test]
fn should_answer_completed_submit() {
    let (state, _) = handle(PipelineState::Received, message(ACTIVE, "key-1"));

    let (state, action) = handle(state, answered(200, "{}"));

    assert_eq!(state, PipelineState::Composed);
    match action {
        Action::Report(PipelineResult::Dispatched(envelope, correlation_key)) => {
            assert_eq!(correlation_key, "key-1".to_string());
            assert_eq!(
                envelope.to_payload(),
                r#"{"request_id":"r1","status_code":200,"status_body":{}}"#.to_string()
            );
        }
        other => panic!("unexpected action {:?}", other),
    }
}

#[test]
fn should_answer_submit_that_timed_out() {
    let (state, _) = handle(PipelineState::Received, message(ACTIVE, "key-1"));

    let (state, action) = handle(state, Event::Outcome(DispatchOutcome::Unreachable));

    assert_eq!(state, PipelineState::Composed);
    match action {
        Action::Report(PipelineResult::Dispatched(envelope, correlation_key)) => {
            assert_eq!(correlation_key, "key-1".to_string());
            assert_eq!(
                envelope.to_payload(),
                r#"{"request_id":"r1","status_code":900,"status_body":{"issues":[{"severity":"error","message":"No HTTP connection"}]}}"#
                    .to_string()
            );
        }
        other => panic!("unexpected action {:?}", other),
    }
}

#[test]
fn should_delete_record_of_rejected_consent() {
    let (state, action) = handle(PipelineState::Received, message(REJECTED, "key-2"));

    assert_eq!(state, awaiting("r2", "key-2"));
    assert_eq!(
        action,
        Action::Invoke(Operation::Delete {
            subject_id: "p2".to_string()
        })
    );
}

#[test]
fn should_refuse_message_without_content() {
    let (state, action) = handle(
        PipelineState::Received,
        message(r#"{"requestId":"r3"}"#, "key-3"),
    );

    assert_eq!((state, action), refused());
}

#[test]
fn should_refuse_message_without_request_id() {
    let (state, action) = handle(
        PipelineState::Received,
        message(
            r#"{"content":{"consent":{"status":"active","patient":"p1"}}}"#,
            "key",
        ),
    );

    assert_eq!((state, action), refused());
}

#[test]
fn should_refuse_message_without_usable_consent() {
    for raw in [
        r#"{"requestId":"r1","content":{}}"#,
        r#"{"requestId":"r1","content":{"consent":{"status":"withdrawn","patient":"p1"}}}"#,
        r#"{"requestId":"r1","content":{"consent":{"status":"active"}}}"#,
        "no json",
    ] {
        assert_eq!(handle(PipelineState::Received, message(raw, "key")), refused());
    }
}

#[test]
fn should_accept_request_id_under_both_names() {
    for raw in [
        r#"{"request_id":"same","content":{"consent":{"status":"rejected","patient":"p"}}}"#,
        r#"{"requestId":"same","content":{"consent":{"status":"rejected","patient":"p"}}}"#,
    ] {
        let (state, _) = handle(PipelineState::Received, message(raw, "key"));
        let (_, action) = handle(state, answered(200, ""));

        match action {
            Action::Report(PipelineResult::Dispatched(envelope, _)) => {
                assert_eq!(envelope.request_id, "same".to_string());
            }
            other => panic!("unexpected action {:?}", other),
        }
    }
}

#[test]
fn should_drop_event_that_is_not_awaited() {
    assert_eq!(
        handle(PipelineState::Received, answered(200, "{}")),
        (PipelineState::Received, Action::Idle)
    );
    assert_eq!(
        handle(awaiting("r1", "key"), message(REJECTED, "other")),
        (awaiting("r1", "key"), Action::Idle)
    );
    assert_eq!(
        handle(PipelineState::Composed, message(ACTIVE, "key")),
        (PipelineState::Composed, Action::Idle)
    );
    assert_eq!(
        handle(PipelineState::Composed, answered(200, "{}")),
        (PipelineState::Composed, Action::Idle)
    );
    assert_eq!(
        handle(PipelineState::ParseFailed, message(ACTIVE, "key")),
        (PipelineState::ParseFailed, Action::Idle)
    );
    assert_eq!(
        handle(PipelineState::ParseFailed, Event::Outcome(DispatchOutcome::Unreachable)),
        (PipelineState::ParseFailed, Action::Idle)
    );
}

#[test]
fn should_invoke_registry_once_per_message() {
    let events = vec![
        answered(200, "{}"),
        message(ACTIVE, "key-1"),
        message(REJECTED, "key-2"),
        answered(201, "{}"),
        answered(500, "{}"),
        message(ACTIVE, "key-3"),
    ];
    let mut state = PipelineState::Received;
    let mut invoked = 0;
    let mut published = 0;

    for event in events {
        let (next, action) = handle(state, event);
        state = next;
        match action {
            Action::Invoke(Operation::Submit { .. }) => invoked += 1,
            Action::Invoke(Operation::Delete { .. }) => panic!("nothing is to be deleted"),
            Action::Report(PipelineResult::Dispatched(envelope, correlation_key)) => {
                published += 1;
                assert_eq!(envelope.status_code, 201);
                assert_eq!(correlation_key, "key-1".to_string());
            }
            Action::Report(PipelineResult::Rejected(_)) => panic!("nothing is to be refused"),
            Action::Idle => {}
        }
    }

    assert_eq!(invoked, 1);
    assert_eq!(published, 1);
    assert_eq!(state, PipelineState::Composed);
}

#[test]
fn should_route_by_status_of_consent() {
    let active = Request::from_str(ACTIVE).unwrap();
    let rejected = Request::from_str(REJECTED).unwrap();

    assert_eq!(
        route(&active, &active.consent().unwrap()),
        Operation::Submit {
            content: active.content_string()
        }
    );
    assert_eq!(
        route(&rejected, &rejected.consent().unwrap()),
        Operation::Delete {
            subject_id: "p2".to_string()
        }
    );
}

#[test]
fn should_need_payload_and_key_of_message() {
    assert_eq!(
        Event::from_message(Some("body"), Some("key")),
        Ok(message("body", "key"))
    );
    assert_eq!(Event::from_message(Some("body"), None), Err(Unusable::Key));
    assert_eq!(Event::from_message(None, Some("key")), Err(Unusable::Payload));
    assert_eq!(Event::from_message(None, None), Err(Unusable::Payload));
}
