//! Properties of request handling as a whole, over [`UrlShortener::serve`].

use vstd::prelude::*;

use crate::resolver::{
    hits_list, lookup_key_of, misses_list, path_key, ActionView, Method, PushView, RequestView,
    Served, StoreReplyView, UrlShortener,
};
use crate::response::{
    default_redirect_view, not_found_view, redirect_view, service_unavailable_view,
};
use crate::telemetry::request_record_of;

verus! {

/// A request that is not a GET, or has no `Host` header, gets the 404
/// response whatever the store holds, and neither reads the store nor writes
/// telemetry.
pub proof fn lemma_rejected_request(s: &UrlShortener, req: RequestView, reply: StoreReplyView)
    requires
        req.method != Method::Get || req.host is None,
    ensures
        s.serve(req, reply) == (Served { response: not_found_view(), push: None, looked_up: false }),
{
}

/// A GET with a host and an empty path gets the temporary redirect to the
/// default URL, without any store access or telemetry.
pub proof fn lemma_empty_path(s: &UrlShortener, req: RequestView, reply: StoreReplyView)
    requires
        req.method == Method::Get,
        req.host is Some,
        path_key(req.path).len() == 0,
    ensures
        s.serve(req, reply) == (Served {
            response: default_redirect_view(s.default_url_spec()),
            push: None,
            looked_up: false,
        }),
{
}

/// A GET with a host and a non-empty path looks up the key built from the
/// host and the stripped path; when the store holds a string there, the
/// answer is a permanent redirect to exactly that string and the request's
/// record goes to the hits list.
pub proof fn lemma_hit(s: &UrlShortener, req: RequestView, target: Seq<char>)
    requires
        req.method == Method::Get,
        req.host is Some,
        path_key(req.path).len() > 0,
    ensures
        s.call_spec(req) matches ActionView::Lookup { key, record }
            && key == lookup_key_of(req.host->0, path_key(req.path))
            && record == request_record_of(
                req.host->0,
                path_key(req.path),
                req.forwarded_for,
                req.user_agent,
            ),
        s.serve(req, StoreReplyView::Text(target)) == (Served {
            response: redirect_view(target),
            push: Some(
                PushView {
                    list: hits_list(),
                    value: request_record_of(
                        req.host->0,
                        path_key(req.path),
                        req.forwarded_for,
                        req.user_agent,
                    ),
                },
            ),
            looked_up: true,
        }),
{
}

/// A GET with a host and a non-empty path whose key holds no value, or a
/// value that is not a string, gets the temporary redirect to the default
/// URL, and the request's record goes to the misses list.
pub proof fn lemma_miss(s: &UrlShortener, req: RequestView, reply: StoreReplyView)
    requires
        req.method == Method::Get,
        req.host is Some,
        path_key(req.path).len() > 0,
        reply is Absent || reply is NotText,
    ensures
        s.serve(req, reply) == (Served {
            response: default_redirect_view(s.default_url_spec()),
            push: Some(
                PushView {
                    list: misses_list(),
                    value: request_record_of(
                        req.host->0,
                        path_key(req.path),
                        req.forwarded_for,
                        req.user_agent,
                    ),
                },
            ),
            looked_up: true,
        }),
{
}

/// When the store lookup fails, no telemetry is written for any request, and
/// every request that reached the store gets the 503 response with an empty
/// body.
pub proof fn lemma_store_failure(s: &UrlShortener, req: RequestView)
    ensures
        s.serve(req, StoreReplyView::Failed).push is None,
        s.serve(req, StoreReplyView::Failed).looked_up ==> s.serve(
            req,
            StoreReplyView::Failed,
        ).response == service_unavailable_view(),
        req.method == Method::Get && req.host is Some && path_key(req.path).len() > 0 ==> s.serve(
            req,
            StoreReplyView::Failed,
        ).looked_up,
{
}

/// Handling the same request twice against the same store contents gives the
/// same response and the same telemetry write.
pub proof fn lemma_repeatable(
    s: &UrlShortener,
    req1: RequestView,
    req2: RequestView,
    reply1: StoreReplyView,
    reply2: StoreReplyView,
)
    requires
        req1 == req2,
        reply1 == reply2,
    ensures
        s.serve(req1, reply1) == s.serve(req2, reply2),
{
}

} // verus!
