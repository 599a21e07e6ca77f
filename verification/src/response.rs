//! The response that answers an accepted message.

use vstd::prelude::*;
use vstd::string::StringExecFns;

use crate::bwhc_client::{HttpResponse, HttpResponseView};
use crate::error::AppError;
use crate::json::{json_parse, json_text, parse_value, string_value, value_to_string, Json};
use crate::text::{blank, decimal, is_blank, to_decimal};

verus! {

/// The status code that tells that the registry could not be reached. It
/// is no HTTP status: no completed exchange is reported under it.
pub const NO_CONNECTION_STATUS: u16 = 900;

/// The body that stands for an answer without a usable body: the empty object.
pub open spec fn empty_object_text() -> Seq<char> {
    "{}"@
}

/// The body that tells that the registry could not be reached: one issue,
/// of severity `error`.
pub open spec fn no_connection_text() -> Seq<char> {
    "{\"issues\":[{\"severity\":\"error\",\"message\":\"No HTTP connection\"}]}"@
}

/// How a call on the registry ended.
#[derive(Debug, PartialEq, Eq)]
pub enum DispatchOutcome {
    /// The exchange was completed; the status code may be of any class.
    Success(HttpResponse),
    /// The call could not be completed. The cause is not kept.
    Unreachable,
}

/// The end of a call on the registry, as a mathematical value.
pub enum DispatchOutcomeView {
    Success(HttpResponseView),
    Unreachable,
}

impl View for DispatchOutcome {
    type V = DispatchOutcomeView;

    open spec fn view(&self) -> DispatchOutcomeView {
        match self {
            DispatchOutcome::Success(response) => DispatchOutcomeView::Success(response@),
            DispatchOutcome::Unreachable => DispatchOutcomeView::Unreachable,
        }
    }
}

impl DispatchOutcome {
    /// The outcome of a call: every answer is a success, whatever its
    /// status code, and every failure leaves the registry unreachable,
    /// whatever its cause.
    pub fn from_result(result: Result<HttpResponse, AppError>) -> (r: DispatchOutcome)
        ensures
            r@ == match result {
                Ok(response) => DispatchOutcomeView::Success(response@),
                Err(_) => DispatchOutcomeView::Unreachable,
            },
    {
        match result {
            Ok(response) => DispatchOutcome::Success(response),
            Err(_) => DispatchOutcome::Unreachable,
        }
    }
}

/// The one message that answers an accepted request.
#[derive(Debug, PartialEq, Eq)]
pub struct ResponseEnvelope {
    /// The correlation id of the request, unchanged.
    pub request_id: String,
    /// The registry's status code, or `NO_CONNECTION_STATUS`.
    pub status_code: u16,
    /// A JSON document in compact text.
    pub status_body: String,
}

/// A response envelope, as a mathematical value.
pub struct ResponseEnvelopeView {
    pub request_id: Seq<char>,
    pub status_code: u16,
    pub status_body: Seq<char>,
}

impl View for ResponseEnvelope {
    type V = ResponseEnvelopeView;

    open spec fn view(&self) -> ResponseEnvelopeView {
        ResponseEnvelopeView {
            request_id: self.request_id@,
            status_code: self.status_code,
            status_body: self.status_body@,
        }
    }
}

/// The document that stands for the body of an answer: the body's own
/// document in compact text where the body is JSON, and the empty object
/// for a blank body and for one that is no JSON.
pub open spec fn status_document(body: Seq<char>) -> Seq<char> {
    if blank(body) {
        empty_object_text()
    } else {
        match json_parse(body) {
            Some(doc) => json_text(doc),
            None => empty_object_text(),
        }
    }
}

/// The envelope that answers the request `request_id` after `outcome`.
pub open spec fn composed(
    request_id: Seq<char>,
    outcome: DispatchOutcomeView,
) -> ResponseEnvelopeView {
    match outcome {
        DispatchOutcomeView::Success(response) => ResponseEnvelopeView {
            request_id,
            status_code: response.status_code,
            status_body: status_document(response.status_body),
        },
        DispatchOutcomeView::Unreachable => ResponseEnvelopeView {
            request_id,
            status_code: NO_CONNECTION_STATUS,
            status_body: no_connection_text(),
        },
    }
}

/// The text of an envelope: an object of three members, in this order. The
/// id is printed as a JSON string, the code as a decimal numeral, and the
/// body as it stands.
pub open spec fn payload_text(envelope: ResponseEnvelopeView) -> Seq<char> {
    "{\"request_id\":"@ + json_text(Json::Text(envelope.request_id)) + ",\"status_code\":"@
        + decimal(envelope.status_code as nat) + ",\"status_body\":"@ + envelope.status_body
        + "}"@
}

/// Reduces the body of an answer to a JSON document in compact text.
pub fn status_body_document(body: &str) -> (r: String)
    ensures
        r@ == status_document(body@),
{
    if is_blank(body) {
        String::from_str("{}")
    } else {
        match parse_value(body) {
            Ok(doc) => value_to_string(&doc),
            Err(_) => String::from_str("{}"),
        }
    }
}

/// Composes the envelope that answers the request `request_id` after
/// `outcome`. This cannot fail.
pub fn compose(request_id: &str, outcome: &DispatchOutcome) -> (r: ResponseEnvelope)
    ensures
        r@ == composed(request_id@, outcome@),
{
    match outcome {
        DispatchOutcome::Success(response) => ResponseEnvelope {
            request_id: String::from_str(request_id),
            status_code: response.status_code,
            status_body: status_body_document(response.status_body.as_str()),
        },
        DispatchOutcome::Unreachable => ResponseEnvelope {
            request_id: String::from_str(request_id),
            status_code: NO_CONNECTION_STATUS,
            status_body: String::from_str(
                "{\"issues\":[{\"severity\":\"error\",\"message\":\"No HTTP connection\"}]}",
            ),
        },
    }
}

impl ResponseEnvelope {
    /// Writes the envelope as the text of the outbound message.
    pub fn to_payload(&self) -> (r: String)
        ensures
            r@ == payload_text(self@),
    {
        let id = string_value(self.request_id.as_str());
        let mut out = String::from_str("{\"request_id\":");
        out.append(value_to_string(&id).as_str());
        out.append(",\"status_code\":");
        out.append(to_decimal(self.status_code).as_str());
        out.append(",\"status_body\":");
        out.append(self.status_body.as_str());
        out.append("}");
        out
    }
}

} // verus!
