//! A request for the remote gateway to perform.

use vstd::prelude::*;

verus! {

#[derive(Clone, Copy, Debug, PartialEq, Eq)]
pub enum Method {
    Get,
    Post,
}

/// The only status that counts as success.
pub const STATUS_OK: i32 = 200;

/// One HTTP request. `url` is the composed address before percent-encoding,
/// which the gateway applies when it sends.
#[derive(Clone, Debug, PartialEq, Eq)]
pub struct Request {
    pub method: Method,
    pub url: String,
    /// The value of the `Authorization` header, if the request carries one.
    pub authorization: Option<String>,
    /// The body, sent with `Content-Type: application/json`; `None` for a
    /// request without body and without that header.
    pub json_body: Option<String>,
}

pub struct RequestView {
    pub method: Method,
    pub url: Seq<char>,
    pub authorization: Option<Seq<char>>,
    pub json_body: Option<Seq<char>>,
}

pub open spec fn text_view(text: Option<String>) -> Option<Seq<char>> {
    match text {
        Some(s) => Some(s@),
        None => None,
    }
}

impl View for Request {
    type V = RequestView;

    open spec fn view(&self) -> RequestView {
        RequestView {
            method: self.method,
            url: self.url@,
            authorization: text_view(self.authorization),
            json_body: text_view(self.json_body),
        }
    }
}

} // verus!
