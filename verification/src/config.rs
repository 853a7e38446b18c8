//! The API key in a key file: a TOML document with a string under `project_id`.

use vstd::prelude::*;
use vstd::string::StringExecFns;
use crate::error::{Error, ErrorView};

verus! {

/// A TOML document as `toml` holds it.
#[verifier::external_type_specification]
#[verifier::external_body]
pub struct ExTomlValue(toml::Value);

/// What `toml::from_str` makes of `text` when asked for a `toml::Value`: the
/// document, or the text of the parser's complaint.
pub uninterp spec fn toml_parsed(text: Seq<char>) -> Result<toml::Value, Seq<char>>;

/// What `toml::Value::get` finds in `doc` under the key `key`.
pub uninterp spec fn toml_member(doc: toml::Value, key: Seq<char>) -> Option<toml::Value>;

/// What `toml::Value::as_str` reads from `doc`.
pub uninterp spec fn toml_str(doc: toml::Value) -> Option<Seq<char>>;

/// Calls `toml::from_str` for a `toml::Value`, and takes the text of its
/// error. Trusted: the result is `toml_parsed` of the text.
#[verifier::external_body]
fn parse_toml(text: &str) -> (r: Result<toml::Value, String>)
    ensures
        match r {
            Ok(doc) => toml_parsed(text@) == Ok::<toml::Value, Seq<char>>(doc),
            Err(detail) => toml_parsed(text@) == Err::<toml::Value, Seq<char>>(detail@),
        },
{
    toml::from_str::<toml::Value>(text).map_err(|e| e.to_string())
}

/// Calls `toml::Value::get` with a string key. Trusted: the result is
/// `toml_member` of the document and the key.
#[verifier::external_body]
fn toml_get<'a>(doc: &'a toml::Value, key: &str) -> (r: Option<&'a toml::Value>)
    ensures
        match r {
            Some(member) => toml_member(*doc, key@) == Some(*member),
            None => toml_member(*doc, key@) is None,
        },
{
    doc.get(key)
}

/// Calls `toml::Value::as_str`. Trusted: the result is `toml_str` of the document.
#[verifier::external_body]
fn toml_as_str<'a>(doc: &'a toml::Value) -> (r: Option<&'a str>)
    ensures
        match r {
            Some(text) => toml_str(*doc) == Some(text@),
            None => toml_str(*doc) is None,
        },
{
    doc.as_str()
}

/// The name of the field that holds the API key.
pub open spec fn key_field() -> Seq<char> {
    "project_id"@
}

/// The API key in a parsed key file: the string under `project_id`, if the
/// document has that member and it is a string.
pub open spec fn key_in(doc: toml::Value) -> Option<Seq<char>> {
    match toml_member(doc, key_field()) {
        None => None,
        Some(member) => toml_str(member),
    }
}

/// What a key file yields: its key, a parse error where the text is no TOML,
/// a config error that names the field where the document has no key.
pub open spec fn key_of(text: Seq<char>) -> Result<Seq<char>, ErrorView> {
    match toml_parsed(text) {
        Err(detail) => Err(ErrorView::Toml(detail)),
        Ok(doc) => match key_in(doc) {
            None => Err(ErrorView::Config(key_field())),
            Some(key) => Ok(key),
        },
    }
}

/// What reading and parsing a key file yields: a file-read error where the
/// file could not be read, else what its text yields.
pub open spec fn key_of_read(read: Result<String, std::io::Error>) -> Result<Seq<char>, ErrorView> {
    match read {
        Err(e) => Err(ErrorView::FileRead(e)),
        Ok(text) => key_of(text@),
    }
}

/// An outcome that holds a text, with the text and the error taken by their views.
pub open spec fn text_outcome(r: Result<String, Error>) -> Result<Seq<char>, ErrorView> {
    match r {
        Ok(text) => Ok(text@),
        Err(e) => Err(e@),
    }
}

/// Takes the API key out of a parsed key file. A document without a string
/// under `project_id` is a config error that names the field.
pub fn key_from_document(doc: &toml::Value) -> (r: Result<String, Error>)
    ensures
        text_outcome(r) == match key_in(*doc) {
            None => Err::<Seq<char>, ErrorView>(ErrorView::Config(key_field())),
            Some(key) => Ok::<Seq<char>, ErrorView>(key),
        },
{
    let field = "project_id";
    let found = match toml_get(doc, field) {
        None => None,
        Some(member) => toml_as_str(member),
    };
    match found {
        None => Err(Error::Config(String::from_str(field))),
        Some(project_id) => Ok(String::from_str(project_id)),
    }
}

/// Takes the API key out of the text of a key file.
pub fn load_key_from_str(text: &str) -> (r: Result<String, Error>)
    ensures
        text_outcome(r) == key_of(text@),
{
    match parse_toml(text) {
        Err(detail) => Err(Error::Toml(detail)),
        Ok(config) => key_from_document(&config),
    }
}

/// Takes the API key out of what reading the key file gave. The three ways
/// to fail stay apart: the file could not be read, its text is no TOML, the
/// document has no key.
pub fn load_key_from_read(read: Result<String, std::io::Error>) -> (r: Result<String, Error>)
    ensures
        text_outcome(r) == key_of_read(read),
{
    match read {
        Err(e) => Err(Error::FileRead(e)),
        Ok(text) => load_key_from_str(text.as_str()),
    }
}

} // verus!
