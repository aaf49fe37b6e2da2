use vstd::prelude::*;

use serde_json::{Error, Value};

verus! {

/// serde_json's JSON value, carried through unopened.
#[verifier::external_type_specification]
#[verifier::external_body]
pub struct ExJsonValue(Value);

/// serde_json's error.
#[verifier::external_type_specification]
#[verifier::external_body]
pub struct ExJsonError(Error);

/// What `serde_json::from_str` gives for `text`: the value, or the error
/// with which it refuses the text.
pub uninterp spec fn parsed_json(text: Seq<char>) -> Result<Value, Error>;

/// What `serde_json::to_string` gives for `value`: the text, or the error
/// with which it fails.
pub uninterp spec fn serialized_json(value: Value) -> Result<Seq<char>, Error>;

/// The message that serde_json's error displays.
pub uninterp spec fn json_error_text(error: Error) -> Seq<char>;

/// Whether `serde_json::from_str` accepts `text` as a JSON value.
pub open spec fn json_text_is_valid(text: Seq<char>) -> bool {
    parsed_json(text) is Ok
}

/// Wraps `serde_json::from_str` into a `serde_json::Value`. The contract
/// claims that the outcome is the one named `parsed_json` for this text: the
/// parse is a function of the text alone.
#[verifier::external_body]
fn parse_json_value(text: &str) -> (parsed: Result<Value, Error>)
    ensures
        parsed == parsed_json(text@),
{
    serde_json::from_str(text)
}

/// Wraps `serde_json::to_string` on a `serde_json::Value`. The contract
/// claims that the outcome is the one named `serialized_json` for this value.
#[verifier::external_body]
fn serialize_json_value(value: &Value) -> (serialized: Result<String, Error>)
    ensures
        serialized_json(*value) == match serialized {
            Ok(t) => Ok(t@),
            Err(e) => Err(e),
        },
{
    serde_json::to_string(value)
}

/// Wraps `<serde_json::Error as Display>::fmt` (through `to_string`). The
/// contract claims that the message is the one named `json_error_text` for
/// this error.
#[verifier::external_body]
fn json_error_message(error: &Error) -> (message: String)
    ensures
        message@ == json_error_text(*error),
{
    error.to_string()
}

/// Why a JSON operation failed.
pub enum JsonError {
    /// `JSON.parse` was given no string to parse.
    NotAString,
    /// The text is not JSON; serde_json's message.
    Syntax(String),
    /// The value could not be written as JSON; serde_json's message.
    Serialize(String),
}

/// The outcome of parsing `text`: serde_json's value, or a syntax error
/// with serde_json's message.
pub open spec fn json_parse_outcome(text: Seq<char>, parsed: Result<Value, JsonError>) -> bool {
    match parsed_json(text) {
        Ok(value) => parsed == Ok::<Value, JsonError>(value),
        Err(error) => parsed matches Err(JsonError::Syntax(message)) && message@ == json_error_text(error),
    }
}

/// Reads what serde_json's parser gave: the value, or a syntax error with
/// serde_json's message.
pub fn json_parse_result(result: Result<Value, Error>) -> (parsed: Result<Value, JsonError>)
    ensures
        match result {
            Ok(value) => parsed == Ok::<Value, JsonError>(value),
            Err(error) => parsed matches Err(JsonError::Syntax(message)) && message@
                == json_error_text(error),
        },
{
    match result {
        Ok(value) => Ok(value),
        Err(error) => Err(JsonError::Syntax(json_error_message(&error))),
    }
}

/// Reads what serde_json's writer gave: the text, or a serialization error
/// with serde_json's message.
pub fn json_serialize_result(result: Result<String, Error>) -> (text: Result<String, JsonError>)
    ensures
        match result {
            Ok(t) => text matches Ok(s) && s@ == t@,
            Err(error) => text matches Err(JsonError::Serialize(message)) && message@
                == json_error_text(error),
        },
{
    match result {
        Ok(t) => Ok(t),
        Err(error) => Err(JsonError::Serialize(json_error_message(&error))),
    }
}

/// Parses any JSON text: the value that serde_json makes of it, or, where
/// serde_json refuses it, its message.
pub fn parse_json_text(text: &str) -> (parsed: Result<Value, JsonError>)
    ensures
        json_parse_outcome(text@, parsed),
        parsed is Ok <==> json_text_is_valid(text@),
{
    json_parse_result(parse_json_value(text))
}

/// Parses JSON text that serde_json accepts: its value.
pub fn parse_valid_json(text: &str) -> (value: Value)
    requires
        json_text_is_valid(text@),
    ensures
        parsed_json(text@) == Ok::<Value, Error>(value),
{
    match parse_json_value(text) {
        Ok(value) => value,
        Err(_) => unreached(),
    }
}

/// The `JSON` object of the JavaScript environment.
pub struct JSON;

impl JSON {
    /// `JSON.parse` on its first argument, a string holding JSON: the value
    /// that serde_json makes of it.
    pub fn parse(text: &str) -> (value: Value)
        requires
            json_text_is_valid(text@),
        ensures
            parsed_json(text@) == Ok::<Value, Error>(value),
    {
        parse_valid_json(text)
    }

    /// `JSON.parse` for any first argument: `argument` is its string value, or
    /// `None` when it is missing or is not a string, which is an error; text
    /// that is not JSON is a syntax error; else what `parse` gives.
    pub fn try_parse(argument: Option<&str>) -> (parsed: Result<Value, JsonError>)
        ensures
            argument is None ==> parsed matches Err(JsonError::NotAString),
            argument matches Some(text) ==> json_parse_outcome(text@, parsed),
    {
        match argument {
            None => Err(JsonError::NotAString),
            Some(text) => match parse_json_text(text) {
                Ok(_) => Ok(JSON::parse(text)),
                Err(error) => Err(error),
            },
        }
    }

    /// `JSON.stringify`: the JSON text of a value, or serde_json's message
    /// when it cannot be written.
    pub fn stringify(value: &Value) -> (text: Result<String, JsonError>)
        ensures
            match serialized_json(*value) {
                Ok(t) => text matches Ok(s) && s@ == t,
                Err(error) => text matches Err(JsonError::Serialize(message)) && message@
                    == json_error_text(error),
            },
    {
        json_serialize_result(serialize_json_value(value))
    }
}

} // verus!
