//! The errors that the web handlers answer with, and how a request payload is
//! accepted.

use vstd::prelude::*;

verus! {

/// An error answer: a message for people and a code for programs.
#[derive(Debug, Clone, Copy)]
pub struct APIError {
    pub message: &'static str,
    pub code: &'static str,
}

impl APIError {
    /// The request carried no payload.
    pub fn no_payload() -> (e: APIError)
        ensures
            e.message@ == "No payload"@,
            e.code@ == "no_payload"@,
    {
        APIError { message: "No payload", code: "no_payload" }
    }

    /// The payload could not be read.
    pub fn invalid_payload() -> (e: APIError)
        ensures
            e.message@ == "Invalid payload"@,
            e.code@ == "invalid_payload"@,
    {
        APIError { message: "Invalid payload", code: "invalid_payload" }
    }

    /// The payload text is no JSON document.
    pub fn json_parse_error() -> (e: APIError)
        ensures
            e.message@ == "could not parse JSON successfully"@,
            e.code@ == "json_parse_error"@,
    {
        APIError { message: "could not parse JSON successfully", code: "json_parse_error" }
    }

    /// The payload lacks the members that an interaction carries.
    pub fn invalid_structure() -> (e: APIError)
        ensures
            e.message@ == "Invalid payload structure"@,
            e.code@ == "invalid_structure"@,
    {
        APIError { message: "Invalid payload structure", code: "invalid_structure" }
    }

    /// The request does not carry the administrator key.
    pub fn no_authorization() -> (e: APIError)
        ensures
            e.message@ == "Missing api key"@,
            e.code@ == "no_authorization"@,
    {
        APIError { message: "Missing api key", code: "no_authorization" }
    }

    /// The text `code: message` by which the error displays itself.
    pub fn describe(&self) -> (r: String)
        ensures
            r@ == self.code@ + ": "@ + self.message@,
    {
        let mut r = self.code.to_string();
        r.append(": ");
        r.append(self.message);
        r
    }
}

/// What a request brought as its payload.
#[derive(Debug)]
pub enum Received<T> {
    /// A payload that could not be read.
    Invalid,
    /// No payload at all.
    Missing,
    /// A payload read as expected.
    Present(T),
}

/// Accepts a payload, or names the error to answer with.
pub fn accept_payload<T>(received: Received<T>) -> (r: Result<T, APIError>)
    ensures
        received is Invalid ==> (r matches Err(e) && e.code@ == "invalid_payload"@
            && e.message@ == "Invalid payload"@),
        received is Missing ==> (r matches Err(e) && e.code@ == "no_payload"@ && e.message@
            == "No payload"@),
        received matches Received::Present(p) ==> r == Ok::<T, APIError>(p),
{
    match received {
        Received::Invalid => Err(APIError::invalid_payload()),
        Received::Missing => Err(APIError::no_payload()),
        Received::Present(p) => Ok(p),
    }
}

} // verus!
