//! The inbound envelope: a correlation id and a clinical payload.

use vstd::prelude::*;

use crate::error::ParseError;
use crate::json::{
    json_model, json_parse, json_text, member, parse_value, value_as_str, value_clone, value_get,
    value_to_string, Json,
};
use crate::resources::mtbfile::{consent_of, MTBFileWithConsent, Status};

verus! {

/// An inbound envelope, as a mathematical value.
pub struct RequestView {
    pub request_id: Seq<char>,
    pub content: Json,
}

/// The member that holds the correlation id. It is accepted under two
/// names. `request_id` is looked for first and wins where a document has
/// both; `requestId` is looked for only where `request_id` is absent.
pub open spec fn correlation_member(doc: Json) -> Option<Json> {
    match member(doc, "request_id"@) {
        Some(id) => Some(id),
        None => member(doc, "requestId"@),
    }
}

/// The envelope that a document holds.
///
/// The document must be an object whose correlation member is a string
/// that is not empty, and which has a member `content`, of any shape. Other
/// members are ignored. Any other document holds none.
pub open spec fn envelope_of(doc: Json) -> Option<RequestView> {
    match (correlation_member(doc), member(doc, "content"@)) {
        (Some(Json::Text(request_id)), Some(content)) => if request_id.len() > 0 {
            Some(RequestView { request_id, content })
        } else {
            None
        },
        _ => None,
    }
}

/// The envelope that a raw message holds; `None` where the message is no
/// JSON or the document holds no envelope.
pub open spec fn decode_envelope(raw: Seq<char>) -> Option<RequestView> {
    match json_parse(raw) {
        Some(doc) => envelope_of(doc),
        None => None,
    }
}

/// Whether a raw message can be dispatched: it holds an envelope, and the
/// payload of the envelope carries a consent.
pub open spec fn dispatchable(raw: Seq<char>) -> bool {
    match decode_envelope(raw) {
        Some(envelope) => consent_of(envelope.content) is Some,
        None => false,
    }
}

/// The correlation id and the payload of one inbound message.
#[derive(Debug, PartialEq, Eq)]
pub struct Request {
    request_id: String,
    content: serde_json::Value,
}

impl View for Request {
    type V = RequestView;

    closed spec fn view(&self) -> RequestView {
        RequestView { request_id: self.request_id@, content: json_model(self.content) }
    }
}

impl Request {
    /// A request has a correlation id.
    #[verifier::type_invariant]
    spec fn identified(self) -> bool {
        self.request_id@.len() > 0
    }

    /// Extracts the envelope of a document. Fails exactly where the
    /// document holds none.
    pub fn from_value(doc: &serde_json::Value) -> (r: Result<Request, ParseError>)
        ensures
            match r {
                Ok(request) => envelope_of(json_model(*doc)) == Some(request@),
                Err(e) => e == ParseError::Malformed && envelope_of(json_model(*doc)) is None,
            },
    {
        let id = match value_get(doc, "request_id") {
            Some(id) => id,
            None => match value_get(doc, "requestId") {
                Some(id) => id,
                None => {
                    return Err(ParseError::Malformed);
                },
            },
        };
        let request_id = match value_as_str(id) {
            Some(request_id) => request_id,
            None => {
                return Err(ParseError::Malformed);
            },
        };
        if request_id.is_empty() {
            return Err(ParseError::Malformed);
        }
        match value_get(doc, "content") {
            Some(content) => Ok(
                Request { request_id: request_id.to_owned(), content: value_clone(content) },
            ),
            None => Err(ParseError::Malformed),
        }
    }

    /// Reads the envelope of a raw message. Fails exactly where the message
    /// is no JSON or the document holds no envelope.
    pub fn from_str(raw: &str) -> (r: Result<Request, ParseError>)
        ensures
            match r {
                Ok(request) => decode_envelope(raw@) == Some(request@),
                Err(e) => e == ParseError::Malformed && decode_envelope(raw@) is None,
            },
    {
        match parse_value(raw) {
            Ok(doc) => Request::from_value(&doc),
            Err(_) => Err(ParseError::Malformed),
        }
    }

    /// Whether a raw message can be dispatched.
    pub fn can_parse(raw: &str) -> (r: bool)
        ensures
            r == dispatchable(raw@),
    {
        match Request::from_str(raw) {
            Ok(request) => request.consent().is_ok(),
            Err(_) => false,
        }
    }

    /// The consent that the payload carries. Fails exactly where it
    /// carries none.
    pub fn consent(&self) -> (r: Result<MTBFileWithConsent, ParseError>)
        ensures
            match r {
                Ok(file) => consent_of(self@.content) == Some(file@),
                Err(e) => e == ParseError::Malformed && consent_of(self@.content) is None,
            },
    {
        MTBFileWithConsent::from_value(&self.content)
    }

    /// The correlation id, as it stood in the message. It is never empty.
    pub fn request_id(&self) -> (r: String)
        ensures
            r@ == self@.request_id,
            r@.len() > 0,
    {
        proof {
            use_type_invariant(self);
        }
        self.request_id.clone()
    }

    /// The payload in compact JSON text.
    pub fn content_string(&self) -> (r: String)
        ensures
            r@ == json_text(self@.content),
    {
        value_to_string(&self.content)
    }

    /// Whether the payload carries an active consent. A payload without a
    /// consent has none.
    pub fn has_consent(&self) -> (r: bool)
        ensures
            r == (consent_of(self@.content) matches Some(consent) && consent.status
                == Status::Active),
    {
        match self.consent() {
            Ok(file) => file.has_consent(),
            Err(_) => false,
        }
    }

    /// The subject that the payload's consent names; the empty text for a
    /// payload without a consent.
    pub fn patient_id(&self) -> (r: String)
        ensures
            r@ == match consent_of(self@.content) {
                Some(consent) => consent.subject_id,
                None => Seq::<char>::empty(),
            },
    {
        match self.consent() {
            Ok(file) => file.patient_id(),
            Err(_) => String::new(),
        }
    }
}

} // verus!
