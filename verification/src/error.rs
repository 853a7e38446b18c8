//! The single error type that every operation of the client reports through.

use vstd::prelude::*;

verus! {

/// A failure to parse or join a URL, as reported by `url`.
#[verifier::external_type_specification]
#[verifier::external_body]
pub struct ExUrlParseError(url::ParseError);

/// A failure to read a file, as reported by the operating system.
#[verifier::external_type_specification]
#[verifier::external_body]
pub struct ExIoError(std::io::Error);

/// Everything that can go wrong in one operation of the client.
///
/// Exactly one kind is active per failure. Failures of the transport and of the
/// text parsers are carried as the report that the reporting side printed.
#[derive(Debug)]
pub enum Error {
    /// The transport failed: no response was received.
    Reqwest(String),
    /// The response body is neither the expected result nor a service error.
    SerdeJson(String),
    /// The base URL or an endpoint path is malformed.
    Url(url::ParseError),
    /// The named field is missing from the key file.
    Config(String),
    /// The key file could not be read.
    FileRead(std::io::Error),
    /// The key file is not valid TOML.
    Toml(String),
    /// An evaluation result that is well-formed JSON but fails validation.
    EvaluateTxResult(String),
    /// The service reported that the transaction failed to execute.
    EvaluateTxFailure(String),
    /// The service answered with its own error envelope.
    HttpError { status_code: u16, error: String, message: String },
}

/// What an [`Error`] says, with every text as a sequence of characters.
pub enum ErrorView {
    Reqwest(Seq<char>),
    SerdeJson(Seq<char>),
    Url(url::ParseError),
    Config(Seq<char>),
    FileRead(std::io::Error),
    Toml(Seq<char>),
    EvaluateTxResult(Seq<char>),
    EvaluateTxFailure(Seq<char>),
    HttpError { status_code: u16, error: Seq<char>, message: Seq<char> },
}

impl View for Error {
    type V = ErrorView;

    open spec fn view(&self) -> ErrorView {
        match *self {
            Error::Reqwest(s) => ErrorView::Reqwest(s@),
            Error::SerdeJson(s) => ErrorView::SerdeJson(s@),
            Error::Url(e) => ErrorView::Url(e),
            Error::Config(s) => ErrorView::Config(s@),
            Error::FileRead(e) => ErrorView::FileRead(e),
            Error::Toml(s) => ErrorView::Toml(s@),
            Error::EvaluateTxResult(s) => ErrorView::EvaluateTxResult(s@),
            Error::EvaluateTxFailure(s) => ErrorView::EvaluateTxFailure(s@),
            Error::HttpError { status_code, error, message } => ErrorView::HttpError {
                status_code,
                error: error@,
                message: message@,
            },
        }
    }
}

/// The outcome of an operation, with its error taken by its view.
pub open spec fn outcome<T>(r: Result<T, Error>) -> Result<T, ErrorView> {
    match r {
        Ok(t) => Ok(t),
        Err(e) => Err(e@),
    }
}

} // verus!
