//! The records that the response resolver works on.

use vstd::prelude::*;
use vstd::string::StringExecFns;
use crate::error::{Error, ErrorView};
use crate::json::{field_text, Field};

verus! {

/// The service's own error envelope: `{status_code, error, message}`.
#[derive(Debug, Clone, PartialEq, Eq)]
pub struct HttpErrorInner {
    pub status_code: u16,
    pub error: String,
    pub message: String,
}

/// An [`HttpErrorInner`] with its texts as sequences of characters.
pub struct HttpErrorInnerView {
    pub status_code: u16,
    pub error: Seq<char>,
    pub message: Seq<char>,
}

impl HttpErrorInnerView {
    /// The service error that carries the envelope's three fields.
    pub open spec fn error(self) -> ErrorView {
        ErrorView::HttpError { status_code: self.status_code, error: self.error, message: self.message }
    }
}

impl View for HttpErrorInner {
    type V = HttpErrorInnerView;

    open spec fn view(&self) -> HttpErrorInnerView {
        HttpErrorInnerView {
            status_code: self.status_code,
            error: self.error@,
            message: self.message@,
        }
    }
}

/// The complaint about a member that a document does not have.
pub open spec fn missing_field(name: Seq<char>) -> Seq<char> {
    "missing field `"@ + name + "`"@
}

/// The complaint about a member that holds a value of the wrong kind or size.
pub open spec fn invalid_field(name: Seq<char>) -> Seq<char> {
    "invalid value for field `"@ + name + "`"@
}

/// The value that `field` holds, or the complaint about it under the name `name`.
pub open spec fn required<T>(field: Field<T>, name: Seq<char>) -> Result<T, Seq<char>> {
    match field {
        Field::Missing => Err(missing_field(name)),
        Field::Mismatch => Err(invalid_field(name)),
        Field::Present(value) => Ok(value),
    }
}

/// The envelope that three fields make, or the complaint about the first of
/// `status_code`, `error`, `message` that is missing or invalid. A status code
/// is valid from 0 to 65535.
pub open spec fn envelope(
    status_code: Field<u64>,
    error: Field<Seq<char>>,
    message: Field<Seq<char>>,
) -> Result<HttpErrorInnerView, Seq<char>> {
    match required(status_code, "status_code"@) {
        Err(detail) => Err(detail),
        Ok(code) => if code > u16::MAX {
            Err(invalid_field("status_code"@))
        } else {
            match required(error, "error"@) {
                Err(detail) => Err(detail),
                Ok(error) => match required(message, "message"@) {
                    Err(detail) => Err(detail),
                    Ok(message) => Ok(HttpErrorInnerView { status_code: code as u16, error, message }),
                },
            }
        },
    }
}

/// An outcome of reading an envelope, with its texts as sequences of characters.
pub open spec fn envelope_view(r: Result<HttpErrorInner, String>) -> Result<HttpErrorInnerView, Seq<char>> {
    match r {
        Ok(inner) => Ok(inner@),
        Err(detail) => Err(detail@),
    }
}

/// The text of the complaint about a missing member.
fn missing_field_text(name: &str) -> (r: String)
    ensures
        r@ == missing_field(name@),
{
    String::from_str("missing field `").concat(name).concat("`")
}

/// The text of the complaint about an invalid member.
fn invalid_field_text(name: &str) -> (r: String)
    ensures
        r@ == invalid_field(name@),
{
    String::from_str("invalid value for field `").concat(name).concat("`")
}

/// Takes the value out of `field`, or words the complaint about it.
fn require<T>(field: Field<T>, name: &str) -> (r: Result<T, String>)
    ensures
        match r {
            Ok(value) => required(field, name@) == Ok::<T, Seq<char>>(value),
            Err(detail) => required(field, name@) == Err::<T, Seq<char>>(detail@),
        },
{
    match field {
        Field::Missing => Err(missing_field_text(name)),
        Field::Mismatch => Err(invalid_field_text(name)),
        Field::Present(value) => Ok(value),
    }
}

impl HttpErrorInner {
    /// Builds the envelope from its three fields as a document gave them, or
    /// words the complaint about the first that is missing or invalid.
    pub fn from_fields(status_code: Field<u64>, error: Field<String>, message: Field<String>) -> (r:
        Result<HttpErrorInner, String>)
        ensures
            envelope_view(r) == envelope(status_code, field_text(error), field_text(message)),
    {
        let code = match require(status_code, "status_code") {
            Err(detail) => { return Err(detail); },
            Ok(code) => code,
        };
        if code > 65535 {
            return Err(invalid_field_text("status_code"));
        }
        let error = match require(error, "error") {
            Err(detail) => { return Err(detail); },
            Ok(text) => text,
        };
        let message = match require(message, "message") {
            Err(detail) => { return Err(detail); },
            Ok(text) => text,
        };
        Ok(HttpErrorInner { status_code: code as u16, error, message })
    }
}

/// A response body after classification: the expected result, or the
/// service's error envelope.
#[derive(Debug)]
pub enum HTTPResponse<T> {
    HttpOk(T),
    HttpError(HttpErrorInner),
}

impl<T> HTTPResponse<T> {
    /// What the caller of an operation gets for this response.
    pub open spec fn result(self) -> Result<T, ErrorView> {
        match self {
            HTTPResponse::HttpOk(inner) => Ok(inner),
            HTTPResponse::HttpError(inner) => Err(inner@.error()),
        }
    }

    /// Turns the classified response into the operation's outcome: the result as it
    /// is, the envelope as a service error with its three fields copied.
    pub fn into_result(self) -> (r: Result<T, Error>)
        ensures
            crate::error::outcome(r) == self.result(),
    {
        match self {
            HTTPResponse::HttpOk(inner) => Ok(inner),
            HTTPResponse::HttpError(HttpErrorInner { status_code, error, message }) => Err(
                Error::HttpError { status_code, error, message },
            ),
        }
    }
}

} // verus!
