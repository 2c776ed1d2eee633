//! The errors that the client reports.

use crate::wire::{decimal, decimal_string, json_error_text};
use reqwest::Error as HttpError;
use serde_json::Error as JsonError;
use vstd::prelude::*;

verus! {

pub type Result<T> = core::result::Result<T, Error>;

#[verifier::external_type_specification]
#[verifier::external_body]
pub struct ExHttpError(HttpError);

/// The HTTP status that a `reqwest::Error` carries, if any.
pub uninterp spec fn http_status_of(e: HttpError) -> Option<u16>;

/// The message of a `reqwest::Error`.
pub uninterp spec fn http_text_of(e: HttpError) -> Seq<char>;

/// Relies on `reqwest::Error::status`, which reads the error's kind alone:
/// the HTTP status that the error carries, if any, as its number.
#[verifier::external_body]
fn http_error_status(e: &HttpError) -> (r: Option<u16>)
    ensures
        r == http_status_of(*e),
{
    match e.status() {
        Some(code) => Some(code.as_u16()),
        None => None,
    }
}

/// Relies on the `Display` impl of `reqwest::Error`, its message, which
/// depends on the error alone.
#[verifier::external_body]
fn http_error_text(e: &HttpError) -> (r: String)
    ensures
        r@ == http_text_of(*e),
{
    e.to_string()
}

/// What went wrong in a call.
#[derive(Debug)]
pub enum Error {
    /// The client that a handle refers to no longer exists.
    Disconnected,
    /// The text is not a valid id of its resource.
    InvalidId(String),
    /// JSON text could not be parsed or decoded.
    Json(JsonError),
    /// The request failed in transport, or the server answered with a status
    /// outside 2xx.
    RequestFailed { status: Option<u16>, reason: String },
    /// The endpoint needs a token and the client has none.
    Unauthorized,
}

/// The message of a failed request.
pub open spec fn request_failed_text(status: Option<u16>, reason: Seq<char>) -> Seq<char> {
    match status {
        Some(code) => seq!['['] + decimal(code as nat) + seq![']', ' '] + reason,
        None => "request failed: "@ + reason,
    }
}

/// Writes the message of a failed request.
pub fn request_failed_message(status: Option<u16>, reason: &str) -> (r: String)
    ensures
        r@ == request_failed_text(status, reason@),
{
    match status {
        Some(code) => {
            let mut s = "[".to_owned();
            let digits = decimal_string(code as u64);
            s.append(digits.as_str());
            s.append("] ");
            s.append(reason);
            proof {
                reveal_strlit("[");
                reveal_strlit("] ");
            }
            assert(s@ =~= request_failed_text(status, reason@));
            s
        },
        None => {
            let mut s = "request failed: ".to_owned();
            s.append(reason);
            s
        },
    }
}

impl Error {
    /// Whether the call needed a token that the client does not have.
    pub fn is_token_needed(&self) -> (r: bool)
        ensures
            r == (self is Unauthorized),
    {
        match self {
            Error::Unauthorized => true,
            _ => false,
        }
    }

    /// Whether the client behind the handle was gone.
    pub fn is_disconnected(&self) -> (r: bool)
        ensures
            r == (self is Disconnected),
    {
        match self {
            Error::Disconnected => true,
            _ => false,
        }
    }

    /// A message that describes the error.
    pub fn message(&self) -> (r: String)
        ensures
            self is RequestFailed ==> r@ == request_failed_text(
                self->status,
                self->reason@,
            ),
            self is Disconnected ==> r@ == "client disconnected"@,
            self is Unauthorized ==> r@ == "unauthorized: token needed"@,
            self is InvalidId ==> r@ == "\""@ + self->InvalidId_0@ + "\" is not a valid id"@,
            self is Json ==> "failed to parse JSON: "@.is_prefix_of(r@),
    {
        match self {
            Error::Disconnected => "client disconnected".to_owned(),
            Error::InvalidId(id) => {
                let mut s = "\"".to_owned();
                s.append(id.as_str());
                s.append("\" is not a valid id");
                s
            },
            Error::Json(e) => {
                let mut s = "failed to parse JSON: ".to_owned();
                let text = json_error_text(e);
                s.append(text.as_str());
                assert(s@.subrange(0, "failed to parse JSON: "@.len() as int)
                    =~= "failed to parse JSON: "@);
                s
            },
            Error::RequestFailed { status, reason } => request_failed_message(*status, reason.as_str()),
            Error::Unauthorized => "unauthorized: token needed".to_owned(),
        }
    }
}

impl From<HttpError> for Error {
    /// A transport or status failure of the HTTP client becomes a failed
    /// request with the status it carries, if any, and its message.
    fn from(e: HttpError) -> (r: Error)
        ensures
            r is RequestFailed,
            r->status == http_status_of(e),
            r->reason@ == http_text_of(e),
    {
        let status = http_error_status(&e);
        let reason = http_error_text(&e);
        Error::RequestFailed { status, reason }
    }
}

impl vstd::std_specs::convert::FromSpecImpl<HttpError> for Error {
    open spec fn obeys_from_spec() -> bool {
        false
    }

    open spec fn from_spec(e: HttpError) -> Error {
        arbitrary()
    }
}

impl From<JsonError> for Error {
    fn from(e: JsonError) -> (r: Error)
        ensures
            r == Error::Json(e),
    {
        Error::Json(e)
    }
}

impl vstd::std_specs::convert::FromSpecImpl<JsonError> for Error {
    open spec fn obeys_from_spec() -> bool {
        true
    }

    open spec fn from_spec(e: JsonError) -> Error {
        Error::Json(e)
    }
}

} // verus!
