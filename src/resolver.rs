//! The redirect resolver: a state machine that turns a parsed request and the
//! outcome of one store lookup into a response and a telemetry write.
//!
//! The caller drives it. [`UrlShortener::call`] either answers at once or asks
//! for a lookup; the caller performs the lookup and hands its outcome to
//! [`UrlShortener::complete`], which gives the response and the record to push.

use vstd::prelude::*;
use vstd::string::StrSliceExecFns;

use crate::metadata::opt_bytes;
use crate::response::{
    default_redirect_response, default_redirect_view, not_found_response, not_found_view, opt_text,
    redirect_response, redirect_view, service_unavailable, service_unavailable_view, Response,
    ResponseView,
};
use crate::telemetry::{generate_request_json, request_record_of};

verus! {

/// The HTTP method of a request.
#[derive(Clone, Copy, Debug, PartialEq, Eq, Structural)]
pub enum Method {
    Get,
    Head,
    Post,
    Put,
    Delete,
    Options,
    Patch,
    Other,
}

/// A parsed request: method, hostname of the `Host` header, path, and the raw
/// single-line values of the `X-Forwarded-For` and `User-Agent` headers.
pub struct Request {
    pub method: Method,
    pub host: Option<String>,
    pub path: String,
    pub forwarded_for: Option<Vec<u8>>,
    pub user_agent: Option<Vec<u8>>,
}

pub struct RequestView {
    pub method: Method,
    pub host: Option<Seq<char>>,
    pub path: Seq<char>,
    pub forwarded_for: Option<Seq<u8>>,
    pub user_agent: Option<Seq<u8>>,
}

impl View for Request {
    type V = RequestView;

    open spec fn view(&self) -> RequestView {
        RequestView {
            method: self.method,
            host: opt_text(self.host),
            path: self.path@,
            forwarded_for: opt_bytes(self.forwarded_for),
            user_agent: opt_bytes(self.user_agent),
        }
    }
}

/// What the store answered to a lookup.
pub enum StoreReply {
    /// The lookup itself failed (connection, protocol, timeout).
    Failed,
    /// No value is stored under the key.
    Absent,
    /// A value is stored but it cannot be read as a string.
    NotText,
    /// A string value is stored.
    Text(String),
}

pub enum StoreReplyView {
    Failed,
    Absent,
    NotText,
    Text(Seq<char>),
}

impl View for StoreReply {
    type V = StoreReplyView;

    open spec fn view(&self) -> StoreReplyView {
        match self {
            StoreReply::Failed => StoreReplyView::Failed,
            StoreReply::Absent => StoreReplyView::Absent,
            StoreReply::NotText => StoreReplyView::NotText,
            StoreReply::Text(s) => StoreReplyView::Text(s@),
        }
    }
}

/// The classification of a lookup.
pub enum Outcome {
    Hit(String),
    Miss,
    StoreError,
}

pub enum OutcomeView {
    Hit(Seq<char>),
    Miss,
    StoreError,
}

impl View for Outcome {
    type V = OutcomeView;

    open spec fn view(&self) -> OutcomeView {
        match self {
            Outcome::Hit(s) => OutcomeView::Hit(s@),
            Outcome::Miss => OutcomeView::Miss,
            Outcome::StoreError => OutcomeView::StoreError,
        }
    }
}

/// A string stored under the key is a hit; no value, or one that is not a
/// string, is a miss; a failed lookup is a store error.
pub open spec fn classify_spec(reply: StoreReplyView) -> OutcomeView {
    match reply {
        StoreReplyView::Failed => OutcomeView::StoreError,
        StoreReplyView::Absent => OutcomeView::Miss,
        StoreReplyView::NotText => OutcomeView::Miss,
        StoreReplyView::Text(s) => OutcomeView::Hit(s),
    }
}

/// What the caller must do after [`UrlShortener::call`].
pub enum Action {
    /// Send this response; the store is not consulted.
    Respond(Response),
    /// Look `key` up in the store, then pass the reply and `record` on.
    Lookup { key: String, record: String },
}

pub enum ActionView {
    Respond(ResponseView),
    Lookup { key: Seq<char>, record: Seq<char> },
}

impl View for Action {
    type V = ActionView;

    open spec fn view(&self) -> ActionView {
        match self {
            Action::Respond(r) => ActionView::Respond(r@),
            Action::Lookup { key, record } => ActionView::Lookup { key: key@, record: record@ },
        }
    }
}

/// A telemetry write: push `value` onto the store list named `list`.
pub struct Push {
    pub list: String,
    pub value: String,
}

pub struct PushView {
    pub list: Seq<char>,
    pub value: Seq<char>,
}

impl View for Push {
    type V = PushView;

    open spec fn view(&self) -> PushView {
        PushView { list: self.list@, value: self.value@ }
    }
}

pub open spec fn opt_push(p: Option<Push>) -> Option<PushView> {
    match p {
        Some(q) => Some(q@),
        None => None,
    }
}

/// The response to send once a lookup is over, and the telemetry write to
/// finish before sending it, if any.
pub struct Completion {
    pub response: Response,
    pub push: Option<Push>,
}

pub struct CompletionView {
    pub response: ResponseView,
    pub push: Option<PushView>,
}

impl View for Completion {
    type V = CompletionView;

    open spec fn view(&self) -> CompletionView {
        CompletionView { response: self.response@, push: opt_push(self.push) }
    }
}

/// Everything that handling one request does: the response, the telemetry
/// write, and whether the store was consulted.
pub struct Served {
    pub response: ResponseView,
    pub push: Option<PushView>,
    pub looked_up: bool,
}

/// The request path with its leading separator removed.
pub open spec fn path_key(p: Seq<char>) -> Seq<char> {
    if p.len() == 0 {
        p
    } else {
        p.subrange(1, p.len() as int)
    }
}

/// The store key under which the target of `host` and `path` is kept.
pub open spec fn lookup_key_of(host: Seq<char>, path: Seq<char>) -> Seq<char> {
    "r3xx:"@ + host + ":"@ + path
}

/// The list that records hits.
pub open spec fn hits_list() -> Seq<char> {
    "r3xx:hits"@
}

/// The list that records misses.
pub open spec fn misses_list() -> Seq<char> {
    "r3xx:misses"@
}

/// Classifies a store reply.
pub fn classify(reply: StoreReply) -> (r: Outcome)
    ensures
        r@ == classify_spec(reply@),
{
    match reply {
        StoreReply::Failed => Outcome::StoreError,
        StoreReply::Absent => Outcome::Miss,
        StoreReply::NotText => Outcome::Miss,
        StoreReply::Text(s) => Outcome::Hit(s),
    }
}

/// Removes the leading separator of a request path.
pub fn request_path(path: &str) -> (r: String)
    ensures
        r@ == path_key(path@),
{
    let n = path.unicode_len();
    if n == 0 {
        String::new()
    } else {
        path.substring_char(1, n).to_owned()
    }
}

/// Builds the store key of a host and a stripped path.
pub fn lookup_key(host: &str, path: &str) -> (r: String)
    ensures
        r@ == lookup_key_of(host@, path@),
{
    let mut key = String::from_str("r3xx:");
    key.append(host);
    key.append(":");
    key.append(path);
    key
}

/// The redirect service, configured with the URL to fall back on.
pub struct UrlShortener {
    default_url: String,
}

impl UrlShortener {
    pub closed spec fn default_url_spec(&self) -> Seq<char> {
        self.default_url@
    }

    /// The first step for a request: answer it at once, or ask for a lookup.
    pub open spec fn call_spec(&self, req: RequestView) -> ActionView {
        if req.method != Method::Get || req.host is None {
            ActionView::Respond(not_found_view())
        } else if path_key(req.path).len() == 0 {
            ActionView::Respond(default_redirect_view(self.default_url_spec()))
        } else {
            let host = req.host->0;
            let path = path_key(req.path);
            ActionView::Lookup {
                key: lookup_key_of(host, path),
                record: request_record_of(host, path, req.forwarded_for, req.user_agent),
            }
        }
    }

    /// The second step: the response and telemetry write for a store reply.
    pub open spec fn complete_spec(&self, reply: StoreReplyView, record: Seq<char>) -> CompletionView {
        match classify_spec(reply) {
            OutcomeView::Hit(target) => CompletionView {
                response: redirect_view(target),
                push: Some(PushView { list: hits_list(), value: record }),
            },
            OutcomeView::Miss => CompletionView {
                response: default_redirect_view(self.default_url_spec()),
                push: Some(PushView { list: misses_list(), value: record }),
            },
            OutcomeView::StoreError => CompletionView {
                response: service_unavailable_view(),
                push: None,
            },
        }
    }

    /// The whole handling of a request, given what the store would answer.
    pub open spec fn serve(&self, req: RequestView, reply: StoreReplyView) -> Served {
        match self.call_spec(req) {
            ActionView::Respond(r) => Served { response: r, push: None, looked_up: false },
            ActionView::Lookup { key, record } => {
                let c = self.complete_spec(reply, record);
                Served { response: c.response, push: c.push, looked_up: true }
            },
        }
    }

    pub fn new(default_url: String) -> (r: UrlShortener)
        ensures
            r.default_url_spec() == default_url@,
    {
        UrlShortener { default_url }
    }

    /// The URL used when no target is stored.
    pub fn default_url(&self) -> (r: &str)
        ensures
            r@ == self.default_url_spec(),
    {
        self.default_url.as_str()
    }

    /// Takes the first step for a request.
    pub fn call(&self, req: Request) -> (r: Action)
        ensures
            r@ == self.call_spec(req@),
    {
        let ghost req_view = req@;
        let Request { method, host, path, forwarded_for, user_agent } = req;
        if method != Method::Get {
            return Action::Respond(not_found_response());
        }
        match host {
            None => Action::Respond(not_found_response()),
            Some(host) => {
                let path = request_path(path.as_str());
                if path.as_str().unicode_len() == 0 {
                    return Action::Respond(default_redirect_response(self.default_url.clone()));
                }
                let record = generate_request_json(
                    host.as_str(),
                    path.as_str(),
                    forwarded_for,
                    user_agent,
                );
                let key = lookup_key(host.as_str(), path.as_str());
                Action::Lookup { key, record }
            },
        }
    }

    /// Takes the second step: turns the store's reply into the response and
    /// the telemetry write that must finish before it is sent.
    pub fn complete(&self, reply: StoreReply, record: String) -> (r: Completion)
        ensures
            r@ == self.complete_spec(reply@, record@),
    {
        match classify(reply) {
            Outcome::Hit(target) => Completion {
                response: redirect_response(target),
                push: Some(Push { list: String::from_str("r3xx:hits"), value: record }),
            },
            Outcome::Miss => Completion {
                response: default_redirect_response(self.default_url.clone()),
                push: Some(Push { list: String::from_str("r3xx:misses"), value: record }),
            },
            Outcome::StoreError => Completion { response: service_unavailable(), push: None },
        }
    }
}

} // verus!
