//! The calls that the relay makes on the registry, as plain values.
//!
//! The relay does not send anything itself. It says what is to be sent, and
//! takes what came back.

use vstd::prelude::*;
use vstd::string::StringExecFns;

verus! {

/// What the registry answered: the status code and the body of a completed
/// exchange, whatever the class of the status code.
#[derive(Debug, PartialEq, Eq)]
pub struct HttpResponse {
    pub status_code: u16,
    pub status_body: String,
}

/// An answer of the registry, as a mathematical value.
pub struct HttpResponseView {
    pub status_code: u16,
    pub status_body: Seq<char>,
}

impl View for HttpResponse {
    type V = HttpResponseView;

    open spec fn view(&self) -> HttpResponseView {
        HttpResponseView { status_code: self.status_code, status_body: self.status_body@ }
    }
}

impl HttpResponse {
    /// The answer for a completed exchange. A body that could not be read
    /// counts as empty.
    pub fn from_exchange(status_code: u16, body: Option<String>) -> (r: HttpResponse)
        ensures
            r@.status_code == status_code,
            r@.status_body == match body {
                Some(text) => text@,
                None => Seq::<char>::empty(),
            },
    {
        match body {
            Some(text) => HttpResponse { status_code, status_body: text },
            None => HttpResponse { status_code, status_body: String::new() },
        }
    }
}

/// The method of a call on the registry.
#[derive(Clone, Copy, Debug, PartialEq, Eq, Structural)]
pub enum HttpMethod {
    Post,
    Delete,
}

/// One call on the registry, ready to be sent.
#[derive(Debug, PartialEq, Eq)]
pub struct HttpRequest {
    pub method: HttpMethod,
    pub url: String,
    pub body: Option<String>,
    pub content_type: String,
    pub timeout_secs: u64,
}

/// A call on the registry, as a mathematical value.
pub struct HttpRequestView {
    pub method: HttpMethod,
    pub url: Seq<char>,
    pub body: Option<Seq<char>>,
    pub content_type: Seq<char>,
    pub timeout_secs: u64,
}

impl View for HttpRequest {
    type V = HttpRequestView;

    open spec fn view(&self) -> HttpRequestView {
        HttpRequestView {
            method: self.method,
            url: self.url@,
            body: match self.body {
                Some(text) => Some(text@),
                None => None,
            },
            content_type: self.content_type@,
            timeout_secs: self.timeout_secs,
        }
    }
}

/// After this many seconds a call on the registry is given up.
pub const REQUEST_TIMEOUT_SECS: u64 = 5;

/// The call that stores a record: a `POST` of the payload to `MTBFile`
/// below the registry's address.
pub open spec fn mtb_file_call(base_uri: Seq<char>, content: Seq<char>) -> HttpRequestView {
    HttpRequestView {
        method: HttpMethod::Post,
        url: base_uri + "/MTBFile"@,
        body: Some(content),
        content_type: "application/json"@,
        timeout_secs: REQUEST_TIMEOUT_SECS,
    }
}

/// The call that removes a subject's record: a `DELETE` on the subject's
/// name below `MTBFile`, without a body.
pub open spec fn delete_call(base_uri: Seq<char>, patient_id: Seq<char>) -> HttpRequestView {
    HttpRequestView {
        method: HttpMethod::Delete,
        url: base_uri + "/MTBFile/"@ + patient_id,
        body: None,
        content_type: "application/json"@,
        timeout_secs: REQUEST_TIMEOUT_SECS,
    }
}

/// The registry's REST interface.
#[derive(Clone, Copy, Debug)]
pub struct BwhcClient;

impl BwhcClient {
    /// The call that stores the record given as JSON text.
    pub fn mtb_file_request(base_uri: &str, content: &str) -> (r: HttpRequest)
        ensures
            r@ == mtb_file_call(base_uri@, content@),
    {
        HttpRequest {
            method: HttpMethod::Post,
            url: String::from_str(base_uri).concat("/MTBFile"),
            body: Some(String::from_str(content)),
            content_type: String::from_str("application/json"),
            timeout_secs: REQUEST_TIMEOUT_SECS,
        }
    }

    /// The call that removes the record of the given subject.
    pub fn delete_request(base_uri: &str, patient_id: &str) -> (r: HttpRequest)
        ensures
            r@ == delete_call(base_uri@, patient_id@),
    {
        HttpRequest {
            method: HttpMethod::Delete,
            url: String::from_str(base_uri).concat("/MTBFile/").concat(patient_id),
            body: None,
            content_type: String::from_str("application/json"),
            timeout_secs: REQUEST_TIMEOUT_SECS,
        }
    }
}

} // verus!
