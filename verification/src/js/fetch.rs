use vstd::prelude::*;

use crate::text::same_text;

verus! {

/// The HTTP method of a request.
#[allow(non_camel_case_types, clippy::upper_case_acronyms)]
#[derive(PartialEq, Eq, Structural, Clone, Copy, Debug)]
pub enum RequestType {
    GET,
    POST,
    DELETE,
    PUT,
    OPTIONS,
}

/// The method that a `method` option names: `POST`, `DELETE`, `PUT` and
/// `OPTIONS` (exactly so written) are themselves; anything else is `GET`.
pub open spec fn request_type_of(method: Seq<char>) -> RequestType {
    if method == "POST"@ {
        RequestType::POST
    } else if method == "DELETE"@ {
        RequestType::DELETE
    } else if method == "PUT"@ {
        RequestType::PUT
    } else if method == "OPTIONS"@ {
        RequestType::OPTIONS
    } else {
        RequestType::GET
    }
}

impl RequestType {
    /// Reads the `method` option of a request.
    pub fn from_method(method: &str) -> (request_type: RequestType)
        ensures
            request_type == request_type_of(method@),
    {
        if same_text(method, "POST") {
            RequestType::POST
        } else if same_text(method, "DELETE") {
            RequestType::DELETE
        } else if same_text(method, "PUT") {
            RequestType::PUT
        } else if same_text(method, "OPTIONS") {
            RequestType::OPTIONS
        } else {
            RequestType::GET
        }
    }
}

/// A request that `fetch(url, options)` makes.
pub struct FetchRequest {
    pub url: String,
    pub method: RequestType,
}

/// What `fetch` does with a request: a `GET` of the URL, or nothing, for the
/// methods that it does not implement.
pub enum FetchAction {
    Get(String),
    NotImplemented,
}

impl FetchRequest {
    /// The request for a URL and the `method` option, if the options name
    /// one: with none, `GET`.
    pub fn new(url: String, method: Option<&str>) -> (request: FetchRequest)
        ensures
            request.url@ == url@,
            request.method == match method {
                None => RequestType::GET,
                Some(m) => request_type_of(m@),
            },
    {
        let method = match method {
            None => RequestType::GET,
            Some(m) => RequestType::from_method(m),
        };
        FetchRequest { url, method }
    }

    /// What to do: only `GET` is carried out, on the request's URL.
    pub fn action(&self) -> (action: FetchAction)
        ensures
            self.method == RequestType::GET ==> (action matches FetchAction::Get(url) && url@
                == self.url@),
            self.method != RequestType::GET ==> action is NotImplemented,
    {
        match self.method {
            RequestType::GET => FetchAction::Get(self.url.clone()),
            _ => FetchAction::NotImplemented,
        }
    }
}

/// A `fetch` with no `method` option, or with one that names no other
/// method, is carried out as a `GET` of its URL.
pub proof fn lemma_unknown_method_gets(method: Option<Seq<char>>)
    requires
        method matches Some(m) ==> m != "POST"@ && m != "DELETE"@ && m != "PUT"@ && m != "OPTIONS"@,
    ensures
        (match method {
            None => RequestType::GET,
            Some(m) => request_type_of(m),
        }) == RequestType::GET,
{
}

} // verus!
