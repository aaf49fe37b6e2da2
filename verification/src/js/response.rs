use vstd::prelude::*;

use crate::js::json::{
    json_parse_outcome, json_text_is_valid, parse_json_text, parse_valid_json, parsed_json, JsonError,
};
use serde_json::{Error, Value};

verus! {

/// The data of a `Response` object of the fetch API.
pub struct Response {
    pub status: u16,
    pub body: String,
    pub body_used: bool,
    pub ok: bool,
}

impl Response {
    /// The response that `new Response(body)` makes: status 200, ok, its body
    /// not yet used.
    pub open spec fn fresh(self, body: Seq<char>) -> bool {
        &&& self.status == 200
        &&& self.body@ == body
        &&& !self.body_used
        &&& self.ok
    }

    /// `new Response(body)`, given the body already converted to text.
    pub fn new(body: String) -> (response: Response)
        ensures
            response.fresh(body@),
    {
        Response { status: 200, body, body_used: false, ok: true }
    }

    /// `response.text()`: the body, unchanged.
    pub fn text(&self) -> (text: String)
        ensures
            text@ == self.body@,
    {
        self.body.clone()
    }

    /// `response.json()`: the body, which must be JSON, parsed.
    pub fn json(&self) -> (value: Value)
        requires
            json_text_is_valid(self.body@),
        ensures
            parsed_json(self.body@) == Ok::<Value, Error>(value),
    {
        parse_valid_json(self.body.as_str())
    }

    /// `response.json()` on any body: a syntax error when the body is not
    /// JSON, else what `json` gives.
    pub fn try_json(&self) -> (parsed: Result<Value, JsonError>)
        ensures
            json_parse_outcome(self.body@, parsed),
    {
        match parse_json_text(self.body.as_str()) {
            Ok(_) => Ok(self.json()),
            Err(error) => Err(error),
        }
    }
}


} // verus!
