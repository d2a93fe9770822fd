//! Judging what came back from a request to the backend. A failed request
//! goes to the caller that made it and touches nothing else.

use crate::endpoint::{decimal, push_decimal};
use vstd::prelude::*;
use vstd::string::*;

verus! {

/// A request to the backend that failed.
#[derive(Debug, PartialEq, Eq)]
pub enum RequestError {
    /// The request could not be sent or no answer came; the text says why.
    Send(String),
    /// The backend answered with a status that is no success; the text names
    /// the status.
    Status(String),
    /// The body of the answer could not be read; the text says why.
    Body(String),
}

/// Whether `code` is a status number at all.
pub open spec fn is_status(code: u16) -> bool {
    100 <= code <= 999
}

/// Whether `code` is a status of the successful range.
pub open spec fn is_success(code: u16) -> bool {
    200 <= code <= 299
}

/// The text by which `reqwest::StatusCode` displays the status with the
/// number `code`: the number and the reason phrase registered for it.
pub uninterp spec fn status_line(code: u16) -> Seq<char>;

/// How a status is named in an error: by its display text where it is a
/// status number, and by the bare number where it is not.
pub open spec fn shown_status(code: u16) -> Seq<char> {
    if is_status(code) {
        status_line(code)
    } else {
        decimal(code as nat)
    }
}

/// The text of a failed request for the caller.
pub open spec fn failure_text(error: RequestError) -> Seq<char> {
    match error {
        RequestError::Send(why) => "Failed to send request to API server: "@ + why@,
        RequestError::Status(status) => "API request failed with status: "@ + status@,
        RequestError::Body(why) => "Failed to read API response: "@ + why@,
    }
}

/// Calls `reqwest::StatusCode::from_u16` and, on the status it yields, the
/// `to_string` of its `Display`. The contract claims that a status is made
/// exactly of the numbers from 100 to 999, and gives the text a name; of
/// what the text holds it claims nothing.
#[verifier::external_body]
fn status_text(code: u16) -> (text: Option<String>)
    ensures
        text is Some <==> is_status(code),
        text matches Some(line) ==> line@ == status_line(code),
{
    match reqwest::StatusCode::from_u16(code) {
        Ok(status) => Some(status.to_string()),
        Err(_) => None,
    }
}

/// Judges the status of an answer: a status of the successful range lets the
/// caller go on to read the body, any other is the error that names it.
pub fn check_status(code: u16) -> (verdict: Result<(), RequestError>)
    ensures
        verdict is Ok <==> is_success(code),
        verdict matches Err(error) ==> error matches RequestError::Status(status) && status@
            == shown_status(code),
{
    if 200 <= code && code <= 299 {
        Ok(())
    } else {
        match status_text(code) {
            Some(line) => Err(RequestError::Status(line)),
            None => {
                let mut number = String::new();
                push_decimal(&mut number, code as u32);
                assert(number@ =~= decimal(code as nat));
                Err(RequestError::Status(number))
            },
        }
    }
}

impl RequestError {
    /// The error as text for the caller.
    pub fn message(&self) -> (text: String)
        ensures
            text@ == failure_text(*self),
    {
        match self {
            RequestError::Send(why) => {
                let mut text = String::from_str("Failed to send request to API server: ");
                text.append(why.as_str());
                text
            },
            RequestError::Status(status) => {
                let mut text = String::from_str("API request failed with status: ");
                text.append(status.as_str());
                text
            },
            RequestError::Body(why) => {
                let mut text = String::from_str("Failed to read API response: ");
                text.append(why.as_str());
                text
            },
        }
    }
}

} // verus!
