//! The response resolver: from the bytes of one response body to the typed
//! result or to exactly one error.

use vstd::prelude::*;
use crate::error::{outcome, Error, ErrorView};
use crate::json::{json_parsed, parse_json, read_text, read_u64, text_field, u64_field};
use crate::models::{envelope, envelope_view, HTTPResponse, HttpErrorInner, HttpErrorInnerView};

verus! {

/// The service's error envelope as the document `doc` holds it in its members
/// `status_code`, `error` and `message`, or the complaint about the first of
/// them that is missing or invalid.
pub open spec fn document_envelope(doc: serde_json::Value) -> Result<HttpErrorInnerView, Seq<char>> {
    envelope(u64_field(doc, "status_code"@), text_field(doc, "error"@), text_field(doc, "message"@))
}

/// The service's error envelope in a response body, or why the body holds
/// none: the parser's complaint where the body is no JSON text, the
/// complaint about a member where it is.
pub open spec fn service_error_of(full: Seq<u8>) -> Result<HttpErrorInnerView, Seq<char>> {
    match json_parsed(full) {
        Err(detail) => Err(detail),
        Ok(doc) => document_envelope(doc),
    }
}

/// Reads the service's error envelope from a parsed document.
pub fn service_error(doc: &serde_json::Value) -> (r: Result<HttpErrorInner, String>)
    ensures
        envelope_view(r) == document_envelope(*doc),
{
    let status_code = read_u64(doc, "status_code");
    let error = read_text(doc, "error");
    let message = read_text(doc, "message");
    HttpErrorInner::from_fields(status_code, error, message)
}

/// Reads the service's error envelope from a response body.
pub fn parse_service_error(full: &[u8]) -> (r: Result<HttpErrorInner, String>)
    ensures
        envelope_view(r) == service_error_of(full@),
{
    match parse_json(full) {
        Err(detail) => Err(detail),
        Ok(doc) => service_error(&doc),
    }
}

/// Resolves one response body. `parsed` is the body read as the expected
/// result, `None` where it has not that shape; `full` is the body itself.
///
/// A body of the expected shape is the result, whatever status the transport
/// saw. Any other body is an error: the service's own where the body is its
/// envelope, with the envelope's three fields copied; otherwise a
/// serialization error that says why the body is no envelope either.
pub fn try_deserializing<T>(parsed: Option<T>, full: &[u8]) -> (r: Result<T, Error>)
    ensures
        parsed matches Some(inner) ==> r == Ok::<T, Error>(inner),
        parsed is None ==> r is Err,
        parsed is None ==> (service_error_of(full@) matches Ok(inner) ==> r->Err_0@
            == inner.error()),
        parsed is None ==> (service_error_of(full@) matches Err(detail) ==> r->Err_0@
            == ErrorView::SerdeJson(detail)),
{
    let response = match parsed {
        Some(inner) => HTTPResponse::HttpOk(inner),
        None => match parse_service_error(full) {
            Ok(inner) => HTTPResponse::HttpError(inner),
            Err(detail) => { return Err(Error::SerdeJson(detail)); },
        },
    };
    response.into_result()
}

/// Resolves one response body whose expected result is any JSON document.
///
/// Every JSON text has the expected shape, the service's envelope too; a
/// body that is no JSON text is a serialization error with the parser's
/// complaint.
pub fn try_deserializing_value(full: &[u8]) -> (r: Result<serde_json::Value, Error>)
    ensures
        outcome(r) == match json_parsed(full@) {
            Ok(doc) => Ok::<serde_json::Value, ErrorView>(doc),
            Err(detail) => Err::<serde_json::Value, ErrorView>(ErrorView::SerdeJson(detail)),
        },
{
    match parse_json(full) {
        Ok(doc) => try_deserializing(Some(doc), full),
        Err(_) => try_deserializing(None, full),
    }
}

} // verus!
