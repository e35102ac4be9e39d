//! The four HTTP responses that the service can produce.

use vstd::prelude::*;

verus! {

/// Status code of a permanent redirect.
pub const MOVED_PERMANENTLY: u16 = 301;

/// Status code of a temporary redirect.
pub const TEMPORARY_REDIRECT: u16 = 307;

/// Status code of a missing resource.
pub const NOT_FOUND: u16 = 404;

/// Status code sent when the store cannot be reached.
pub const SERVICE_UNAVAILABLE: u16 = 503;

/// An HTTP response: status, optional `Location` header and body text.
pub struct Response {
    pub status: u16,
    pub location: Option<String>,
    pub body: String,
}

/// The mathematical model of a [`Response`].
pub struct ResponseView {
    pub status: u16,
    pub location: Option<Seq<char>>,
    pub body: Seq<char>,
}

pub open spec fn opt_text(s: Option<String>) -> Option<Seq<char>> {
    match s {
        Some(t) => Some(t@),
        None => None,
    }
}

impl View for Response {
    type V = ResponseView;

    open spec fn view(&self) -> ResponseView {
        ResponseView { status: self.status, location: opt_text(self.location), body: self.body@ }
    }
}

/// 404 with the fixed body `404 Not Found`.
pub open spec fn not_found_view() -> ResponseView {
    ResponseView { status: NOT_FOUND, location: None, body: "404 Not Found"@ }
}

/// 503 with an empty body.
pub open spec fn service_unavailable_view() -> ResponseView {
    ResponseView { status: SERVICE_UNAVAILABLE, location: None, body: Seq::empty() }
}

/// 307 to `url`, with an empty body.
pub open spec fn default_redirect_view(url: Seq<char>) -> ResponseView {
    ResponseView { status: TEMPORARY_REDIRECT, location: Some(url), body: Seq::empty() }
}

/// 301 to `url`, with an empty body.
pub open spec fn redirect_view(url: Seq<char>) -> ResponseView {
    ResponseView { status: MOVED_PERMANENTLY, location: Some(url), body: Seq::empty() }
}

/// Builds the 404 response sent for anything but a GET with a host.
pub fn not_found_response() -> (r: Response)
    ensures
        r@ == not_found_view(),
{
    Response { status: NOT_FOUND, location: None, body: String::from_str("404 Not Found") }
}

/// Builds the 503 response sent when the store lookup fails.
pub fn service_unavailable() -> (r: Response)
    ensures
        r@ == service_unavailable_view(),
{
    Response { status: SERVICE_UNAVAILABLE, location: None, body: String::new() }
}

/// Builds the temporary redirect to the configured default URL.
pub fn default_redirect_response(default_url: String) -> (r: Response)
    ensures
        r@ == default_redirect_view(default_url@),
{
    Response { status: TEMPORARY_REDIRECT, location: Some(default_url), body: String::new() }
}

/// Builds the permanent redirect to a stored target, passed on verbatim.
pub fn redirect_response(location_url: String) -> (r: Response)
    ensures
        r@ == redirect_view(location_url@),
{
    Response { status: MOVED_PERMANENTLY, location: Some(location_url), body: String::new() }
}

} // verus!
