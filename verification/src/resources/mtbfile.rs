//! The consent that a clinical payload carries.

use vstd::prelude::*;

use crate::error::ParseError;
use crate::json::{json_model, json_parse, member, parse_value, value_as_str, value_get, Json};
use crate::text::same_text;

verus! {

/// Whether the subject permits the record to be stored.
#[derive(Clone, Copy, Debug, PartialEq, Eq, Structural)]
pub enum Status {
    /// Wire value `"active"`: the record may be stored.
    Active,
    /// Wire value `"rejected"`: the record must be removed.
    Rejected,
}

/// The consent judgement of a payload, as a mathematical value.
pub struct ConsentRecord {
    pub status: Status,
    pub subject_id: Seq<char>,
}

/// The status that a wire value stands for; `None` for any text but the two
/// recognised literals.
pub open spec fn status_of(wire: Seq<char>) -> Option<Status> {
    if wire == "active"@ {
        Some(Status::Active)
    } else if wire == "rejected"@ {
        Some(Status::Rejected)
    } else {
        None
    }
}

impl Status {
    /// Reads a wire value. Only `active` and `rejected`, written exactly
    /// so, are recognised.
    pub fn from_wire(wire: &str) -> (r: Option<Status>)
        ensures
            r == status_of(wire@),
    {
        if same_text(wire, "active") {
            Some(Status::Active)
        } else if same_text(wire, "rejected") {
            Some(Status::Rejected)
        } else {
            None
        }
    }
}

/// The consent judgement that a payload carries.
///
/// The payload must be an object with a member `consent` that is an object
/// with two string members: `status`, holding a recognised literal, and
/// `patient`. Other members are ignored. Any other payload carries none.
pub open spec fn consent_of(payload: Json) -> Option<ConsentRecord> {
    match member(payload, "consent"@) {
        Some(consent) => match (member(consent, "status"@), member(consent, "patient"@)) {
            (Some(Json::Text(wire)), Some(Json::Text(patient))) => match status_of(wire) {
                Some(status) => Some(ConsentRecord { status, subject_id: patient }),
                None => None,
            },
            _ => None,
        },
        None => None,
    }
}

/// The consent judgement of a payload given as text; `None` where the text
/// is no JSON or the document carries no consent.
pub open spec fn decode_consent(text: Seq<char>) -> Option<ConsentRecord> {
    match json_parse(text) {
        Some(payload) => consent_of(payload),
        None => None,
    }
}

#[derive(Debug, PartialEq, Eq)]
struct Consent {
    status: Status,
    patient: String,
}

/// A clinical payload reduced to its consent.
#[derive(Debug, PartialEq, Eq)]
pub struct MTBFileWithConsent {
    consent: Consent,
}

impl View for MTBFileWithConsent {
    type V = ConsentRecord;

    closed spec fn view(&self) -> ConsentRecord {
        ConsentRecord { status: self.consent.status, subject_id: self.consent.patient@ }
    }
}

impl MTBFileWithConsent {
    /// Extracts the consent of a payload. Fails exactly where the payload
    /// carries none.
    pub fn from_value(payload: &serde_json::Value) -> (r: Result<MTBFileWithConsent, ParseError>)
        ensures
            match r {
                Ok(file) => consent_of(json_model(*payload)) == Some(file@),
                Err(e) => e == ParseError::Malformed && consent_of(json_model(*payload)) is None,
            },
    {
        let consent = match value_get(payload, "consent") {
            Some(consent) => consent,
            None => {
                return Err(ParseError::Malformed);
            },
        };
        let wire = match value_get(consent, "status") {
            Some(status) => match value_as_str(status) {
                Some(wire) => wire,
                None => {
                    return Err(ParseError::Malformed);
                },
            },
            None => {
                return Err(ParseError::Malformed);
            },
        };
        let patient = match value_get(consent, "patient") {
            Some(patient) => match value_as_str(patient) {
                Some(patient) => patient,
                None => {
                    return Err(ParseError::Malformed);
                },
            },
            None => {
                return Err(ParseError::Malformed);
            },
        };
        let status = match Status::from_wire(wire) {
            Some(status) => status,
            None => {
                return Err(ParseError::Malformed);
            },
        };
        Ok(MTBFileWithConsent { consent: Consent { status, patient: patient.to_owned() } })
    }

    /// Reads a payload from JSON text and extracts its consent. Fails
    /// exactly where the text is no JSON or the document carries no consent.
    pub fn from_str(text: &str) -> (r: Result<MTBFileWithConsent, ParseError>)
        ensures
            match r {
                Ok(file) => decode_consent(text@) == Some(file@),
                Err(e) => e == ParseError::Malformed && decode_consent(text@) is None,
            },
    {
        match parse_value(text) {
            Ok(payload) => MTBFileWithConsent::from_value(&payload),
            Err(_) => Err(ParseError::Malformed),
        }
    }

    /// Whether the consent is active.
    pub fn has_consent(&self) -> (r: bool)
        ensures
            r == (self@.status == Status::Active),
    {
        self.consent.status == Status::Active
    }

    /// The identifier of the subject of the record.
    pub fn patient_id(&self) -> (r: String)
        ensures
            r@ == self@.subject_id,
    {
        self.consent.patient.clone()
    }
}

} // verus!
