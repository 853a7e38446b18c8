//! One HTTP request as plain data: what the transport is to send.

use vstd::prelude::*;
use crate::endpoint::pairs_view;

verus! {

/// The HTTP method of a request.
#[derive(Debug, Clone, Copy, PartialEq, Eq, Structural)]
pub enum Method {
    Get,
    Post,
}

/// One request: method, absolute URL with its query, headers in the order in
/// which they are set, and the body of a POST.
#[derive(Debug, Clone, PartialEq, Eq)]
pub struct Request {
    pub method: Method,
    pub url: String,
    pub headers: Vec<(String, String)>,
    pub body: Option<Vec<u8>>,
}

/// A [`Request`] with its texts as sequences of characters and its body as
/// a sequence of bytes.
pub struct RequestView {
    pub method: Method,
    pub url: Seq<char>,
    pub headers: Seq<(Seq<char>, Seq<char>)>,
    pub body: Option<Seq<u8>>,
}

impl View for Request {
    type V = RequestView;

    open spec fn view(&self) -> RequestView {
        RequestView {
            method: self.method,
            url: self.url@,
            headers: pairs_view(self.headers@),
            body: match self.body {
                None => None,
                Some(bytes) => Some(bytes@),
            },
        }
    }
}

} // verus!
