//! What the body of an answer is to the caller: JSON to be decoded, or
//! plain text.

use vstd::prelude::*;
use vstd::string::StringExecFns;
use crate::cmf_response_format::CmfResponseFormat;
use crate::text::optional_view;

verus! {

/// What `serde_json::from_str` says of a text that is read as a
/// `serde_json::Value`: `None` if the text is one JSON value, else the
/// message of the error.
pub uninterp spec fn json_fault(body: Seq<char>) -> Option<Seq<char>>;

/// `serde_json::from_str`, asked for a `serde_json::Value`, reads the whole
/// text as one JSON value or returns an error; the error's `Display` text is
/// its message, with line and column. Both depend on the text alone.
#[verifier::external_body]
fn json_fault_of(body: &str) -> (out: Option<String>)
    ensures
        optional_view(out) == json_fault(body@),
{
    match serde_json::from_str::<serde_json::Value>(body) {
        Ok(_) => None,
        Err(e) => Some(e.to_string()),
    }
}

/// The body of an answer, sorted by what the caller has to do with it.
#[derive(Debug, Clone, PartialEq, Eq)]
pub enum Payload {
    /// Well-formed JSON, to be decoded.
    Json(String),
    /// Text, to be handed on as it is.
    Text(String),
}

/// The mathematical content of a [`Payload`].
pub enum PayloadView {
    Json(Seq<char>),
    Text(Seq<char>),
}

impl View for Payload {
    type V = PayloadView;

    open spec fn view(&self) -> PayloadView {
        match self {
            Payload::Json(body) => PayloadView::Json(body@),
            Payload::Text(body) => PayloadView::Text(body@),
        }
    }
}

/// How the message of a refused body begins.
pub open spec fn parse_error_prefix() -> Seq<char> {
    "Failed to parse JSON response: "@
}

/// What a body is, given the format that was asked for and what the JSON
/// reader says of the body: XML is text; JSON that the reader accepts is
/// JSON; JSON that it refuses is an error whose message ends with the
/// reader's.
pub open spec fn payload_outcome(
    format: CmfResponseFormat,
    body: Seq<char>,
    fault: Option<Seq<char>>,
) -> Result<PayloadView, Seq<char>> {
    match format {
        CmfResponseFormat::Xml => Ok(PayloadView::Text(body)),
        CmfResponseFormat::Json => match fault {
            None => Ok(PayloadView::Json(body)),
            Some(message) => Err(parse_error_prefix() + message),
        },
    }
}

/// The view of a payload result.
pub open spec fn payload_result_view(r: Result<Payload, String>) -> Result<PayloadView, Seq<char>> {
    match r {
        Ok(payload) => Ok(payload@),
        Err(message) => Err(message@),
    }
}

/// Sorts a body, given what the JSON reader said of it.
pub fn payload_from(format: CmfResponseFormat, body: String, fault: Option<String>) -> (out: Result<
    Payload,
    String,
>)
    ensures
        payload_result_view(out) == payload_outcome(format, body@, optional_view(fault)),
{
    match format {
        CmfResponseFormat::Xml => Ok(Payload::Text(body)),
        CmfResponseFormat::Json => match fault {
            None => Ok(Payload::Json(body)),
            Some(message) => {
                let mut text = "Failed to parse JSON response: ".to_owned();
                text.append(message.as_str());
                Err(text)
            },
        },
    }
}

/// Sorts the body of an answer. A body that was asked for as JSON is read
/// by the JSON reader first; one asked for as XML is not read at all.
pub fn read_payload(format: CmfResponseFormat, body: String) -> (out: Result<Payload, String>)
    ensures
        payload_result_view(out) == payload_outcome(format, body@, json_fault(body@)),
{
    match format {
        CmfResponseFormat::Xml => payload_from(format, body, None),
        CmfResponseFormat::Json => {
            let fault = json_fault_of(body.as_str());
            payload_from(format, body, fault)
        },
    }
}

} // verus!
