//! What comes back from a fetch, and what a query reads from it.

use crate::json::{json_member, parse_json, parsed_json, value_model, Json};
use vstd::prelude::*;

verus! {

/// Why a fetch gave no answer.
#[derive(Clone, Copy, Debug, PartialEq, Eq, Structural)]
pub enum FetchError {
    /// The request could not be sent, no response came, or the response's
    /// status was not a success.
    Transport,
    /// The body is not a JSON document, or the document is not an object.
    Protocol,
}

/// How the HTTP exchange of one fetch ended.
#[derive(Clone, Debug, PartialEq, Eq)]
pub enum FetchReply {
    /// The request could not be sent or no response was received.
    NoResponse,
    /// A response arrived, with this status code and body.
    Response { status: u16, body: Vec<u8> },
}

/// A value that a query reports.
#[derive(Clone, Debug, PartialEq, Eq)]
pub enum RpcValue {
    Text(String),
    Unsigned(u64),
}

/// What an [`RpcValue`] holds.
pub ghost enum RpcValueView {
    Text(Seq<char>),
    Unsigned(u64),
}

impl View for RpcValue {
    type V = RpcValueView;

    open spec fn view(&self) -> RpcValueView {
        match *self {
            RpcValue::Text(text) => RpcValueView::Text(text@),
            RpcValue::Unsigned(number) => RpcValueView::Unsigned(number),
        }
    }
}

impl RpcValue {
    /// The text, where the value is one.
    pub fn as_text(&self) -> (text: Option<&str>)
        ensures
            match text {
                Some(held) => self@ == RpcValueView::Text(held@),
                None => !(self@ is Text),
            },
    {
        match self {
            RpcValue::Text(held) => Some(held.as_str()),
            RpcValue::Unsigned(_) => None,
        }
    }

    /// The number, where the value is one.
    pub fn as_unsigned(&self) -> (number: Option<u64>)
        ensures
            match number {
                Some(held) => self@ == RpcValueView::Unsigned(held),
                None => !(self@ is Unsigned),
            },
    {
        match self {
            RpcValue::Unsigned(held) => Some(*held),
            RpcValue::Text(_) => None,
        }
    }
}

/// How a query reads its value from the `result` of a response document.
#[derive(Clone, Copy, Debug, PartialEq, Eq, Structural)]
pub enum Extraction {
    /// The `result` is read as a string.
    Text,
    /// The `result` is read as an unsigned 64-bit integer.
    Unsigned,
}

/// The outcome of a fetch: the value reported, an answer without a value, or
/// the error. This is what an outcome with an [`RpcValue`] holds.
pub open spec fn outcome_view(outcome: Result<Option<RpcValue>, FetchError>) -> Result<
    Option<RpcValueView>,
    FetchError,
> {
    match outcome {
        Ok(Some(value)) => Ok(Some(value@)),
        Ok(None) => Ok(None),
        Err(error) => Err(error),
    }
}

/// Whether an HTTP status code is a success (2xx).
pub open spec fn is_success(status: u16) -> bool {
    200 <= status <= 299
}

/// The `result` member of a response document, where it has one.
pub open spec fn result_field(document: Json) -> Option<Json> {
    match document {
        Json::Object(members) => if members.contains_key("result"@) {
            Some(members["result"@])
        } else {
            None
        },
        _ => None,
    }
}

/// The text that a response document reports: its `result` where that is a
/// JSON string.
pub open spec fn text_result(document: Json) -> Option<Seq<char>> {
    match result_field(document) {
        Some(Json::Text(text)) => Some(text),
        _ => None,
    }
}

/// The number that a response document reports: its `result` where that is a
/// non-negative integer that fits 64 bits.
pub open spec fn unsigned_result(document: Json) -> Option<u64> {
    match result_field(document) {
        Some(Json::Unsigned(number)) => Some(number),
        _ => None,
    }
}

/// The response document in a body: the JSON object that the body holds, or a
/// protocol error where it holds none.
pub open spec fn body_document(body: Seq<u8>) -> Result<Json, FetchError> {
    match parsed_json(body) {
        Some(Json::Object(members)) => Ok(Json::Object(members)),
        _ => Err(FetchError::Protocol),
    }
}

impl Extraction {
    /// What the extraction reads from a response document: the `result`
    /// where it is of the kind that the extraction reads.
    pub open spec fn read(self, document: Json) -> Option<RpcValueView> {
        match self {
            Extraction::Text => match text_result(document) {
                Some(text) => Some(RpcValueView::Text(text)),
                None => None,
            },
            Extraction::Unsigned => match unsigned_result(document) {
                Some(number) => Some(RpcValueView::Unsigned(number)),
                None => None,
            },
        }
    }
}

impl FetchReply {
    /// The response document of a reply, or the error that the reply stands
    /// for: a transport error without a successful response, a protocol error
    /// where the body of one holds no JSON object.
    pub open spec fn document(self) -> Result<Json, FetchError> {
        match self {
            FetchReply::NoResponse => Err(FetchError::Transport),
            FetchReply::Response { status, body } => if is_success(status) {
                body_document(body@)
            } else {
                Err(FetchError::Transport)
            },
        }
    }

    /// What a query reads from a reply with its extraction. A document without
    /// a `result`, or with one of another kind than the extraction reads, is
    /// an answer without a value, not an error.
    pub open spec fn outcome(self, extraction: Extraction) -> Result<
        Option<RpcValueView>,
        FetchError,
    > {
        match self.document() {
            Ok(document) => Ok(extraction.read(document)),
            Err(error) => Err(error),
        }
    }
}

/// Whether an HTTP status code is a success (2xx).
pub fn status_is_success(status: u16) -> (success: bool)
    ensures
        success == is_success(status),
{
    200 <= status && status <= 299
}

/// Takes a parsed JSON value as a response document: it is one if it is an
/// object, and a protocol error if it is anything else.
pub fn require_object(value: serde_json::Value) -> (checked: Result<serde_json::Value, FetchError>)
    ensures
        match checked {
            Ok(document) => value_model(value) is Object && document == value,
            Err(error) => !(value_model(value) is Object) && error == FetchError::Protocol,
        },
{
    if value.is_object() {
        Ok(value)
    } else {
        Err(FetchError::Protocol)
    }
}

/// Reads the response document from a body.
pub fn read_document(body: &[u8]) -> (read: Result<serde_json::Value, FetchError>)
    ensures
        match read {
            Ok(document) => body_document(body@) == Ok::<Json, FetchError>(value_model(document)),
            Err(error) => body_document(body@) == Err::<Json, FetchError>(error),
        },
{
    match parse_json(body) {
        Ok(value) => require_object(value),
        Err(_) => Err(FetchError::Protocol),
    }
}

/// The text that a response document reports.
pub fn extract_text(document: &serde_json::Value) -> (text: Option<String>)
    ensures
        match text_result(value_model(*document)) {
            Some(reported) => text matches Some(found) && found@ == reported,
            None => text is None,
        },
{
    match json_member(document, "result") {
        Some(result) => match result.as_str() {
            Some(text) => Some(text.to_owned()),
            None => None,
        },
        None => None,
    }
}

/// The unsigned number that a response document reports.
pub fn extract_unsigned(document: &serde_json::Value) -> (number: Option<u64>)
    ensures
        number == unsigned_result(value_model(*document)),
{
    match json_member(document, "result") {
        Some(result) => result.as_u64(),
        None => None,
    }
}

/// The document of a reply, or the error that the reply stands for.
pub fn reply_document(reply: &FetchReply) -> (read: Result<serde_json::Value, FetchError>)
    ensures
        match read {
            Ok(document) => reply.document() == Ok::<Json, FetchError>(value_model(document)),
            Err(error) => reply.document() == Err::<Json, FetchError>(error),
        },
{
    match reply {
        FetchReply::NoResponse => Err(FetchError::Transport),
        FetchReply::Response { status, body } => {
            if status_is_success(*status) {
                read_document(body.as_slice())
            } else {
                Err(FetchError::Transport)
            }
        },
    }
}

impl Extraction {
    /// Reads the value from a response document.
    pub fn extract(&self, document: &serde_json::Value) -> (value: Option<RpcValue>)
        ensures
            match value {
                Some(found) => self.read(value_model(*document)) == Some(found@),
                None => self.read(value_model(*document)) is None,
            },
    {
        match self {
            Extraction::Text => match extract_text(document) {
                Some(text) => Some(RpcValue::Text(text)),
                None => None,
            },
            Extraction::Unsigned => match extract_unsigned(document) {
                Some(number) => Some(RpcValue::Unsigned(number)),
                None => None,
            },
        }
    }
}

/// What a query reads from a reply with its extraction.
pub fn decode(reply: &FetchReply, extraction: Extraction) -> (outcome: Result<
    Option<RpcValue>,
    FetchError,
>)
    ensures
        outcome_view(outcome) == reply.outcome(extraction),
{
    match reply_document(reply) {
        Ok(document) => Ok(extraction.extract(&document)),
        Err(error) => Err(error),
    }
}

} // verus!
