use vstd::prelude::*;
use crate::json::{json_quote, json_string};
use crate::text::append_str;

verus! {

/// Which part of a record request was refused.
#[derive(Debug, Clone, Copy, PartialEq, Eq, Structural)]
pub enum RecordRequestErrorType {
    Name,
    Url,
}

/// The lowercase word under which an error type is written in JSON.
pub open spec fn error_type_word(t: RecordRequestErrorType) -> Seq<char> {
    match t {
        RecordRequestErrorType::Name => "name"@,
        RecordRequestErrorType::Url => "url"@,
    }
}

/// A refused record request: which part was wrong, and a message for the client.
#[derive(Debug)]
pub struct RecordRequestError {
    error_type: RecordRequestErrorType,
    message: String,
}

impl View for RecordRequestError {
    type V = (RecordRequestErrorType, Seq<char>);

    closed spec fn view(&self) -> (RecordRequestErrorType, Seq<char>) {
        (self.error_type, self.message@)
    }
}

/// The JSON object of an error: `{"error_type":<type>,"message":<message>}`.
pub open spec fn record_error_json(t: RecordRequestErrorType, message: Seq<char>) -> Seq<char> {
    "{\"error_type\":"@ + json_string(error_type_word(t)) + ",\"message\":"@ + json_string(message)
        + "}"@
}

impl RecordRequestError {
    pub fn new(error_type: RecordRequestErrorType, message: String) -> (err: Self)
        ensures
            err@ == (error_type, message@),
    {
        Self { error_type, message }
    }

    pub fn error_type(&self) -> (t: RecordRequestErrorType)
        ensures
            t == self@.0,
    {
        self.error_type
    }

    /// The message, which is also what the error displays as.
    pub fn to_string(&self) -> (text: String)
        ensures
            text@ == self@.1,
    {
        self.message.clone()
    }

    /// The error serialized as a JSON object, fields in declaration order.
    pub fn to_json(&self) -> (json: String)
        ensures
            json@ == record_error_json(self@.0, self@.1),
    {
        let word = match self.error_type {
            RecordRequestErrorType::Name => "name",
            RecordRequestErrorType::Url => "url",
        };
        let mut json = String::from_str("{\"error_type\":");
        let quoted_word = json_quote(word);
        append_str(&mut json, quoted_word.as_str());
        append_str(&mut json, ",\"message\":");
        let quoted_message = json_quote(self.message.as_str());
        append_str(&mut json, quoted_message.as_str());
        append_str(&mut json, "}");
        json
    }

    /// The HTTP status of the error response: Bad Request.
    pub fn status_code(&self) -> (status: u16)
        ensures
            status == 400,
    {
        400
    }

    /// The body of the error response: the JSON object, itself sent as a JSON string.
    pub fn error_response_body(&self) -> (body: String)
        ensures
            body@ == json_string(record_error_json(self@.0, self@.1)),
    {
        let object = self.to_json();
        json_quote(object.as_str())
    }
}

/// A refused name, carrying the message for the client.
#[derive(Debug)]
pub struct NameError(&'static str);

impl View for NameError {
    type V = Seq<char>;

    closed spec fn view(&self) -> Seq<char> {
        self.0@
    }
}

/// The JSON object a name error displays as: `{"msg":<message>,"type":"name"}`
/// (keys in the sorted order of serde_json's map).
pub open spec fn name_error_json(message: Seq<char>) -> Seq<char> {
    "{\"msg\":"@ + json_string(message) + ",\"type\":\"name\"}"@
}

impl NameError {
    pub fn new(message: &'static str) -> (err: Self)
        ensures
            err@ == message@,
    {
        NameError(message)
    }

    pub fn message(&self) -> (message: &'static str)
        ensures
            message@ == self@,
    {
        self.0
    }

    /// What the error displays as: its message inside a JSON object.
    pub fn to_string(&self) -> (text: String)
        ensures
            text@ == name_error_json(self@),
    {
        let mut text = String::from_str("{\"msg\":");
        let quoted = json_quote(self.0);
        append_str(&mut text, quoted.as_str());
        append_str(&mut text, ",\"type\":\"name\"}");
        text
    }

    /// The HTTP status of the error response: Bad Request.
    pub fn status_code(&self) -> (status: u16)
        ensures
            status == 400,
    {
        400
    }
}

/// An error answered with an HTTP status and a plain-text message.
#[derive(Debug)]
pub struct ApiError {
    pub status: u16,
    pub message: String,
}

impl ApiError {
    pub fn new(status: u16, message: &str) -> (err: Self)
        ensures
            err.status == status,
            err.message@ == message@,
    {
        ApiError { status, message: String::from_str(message) }
    }
}

} // verus!
