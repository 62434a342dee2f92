//! Routing: every inbound request is dispatched by an exact method and path
//! match to one of the two forwarding endpoints, the health check, or the
//! 404 fallback. No path parameters, no wildcard segments, no trailing-slash
//! normalization.

use vstd::prelude::*;
use vstd::string::*;
use crate::model::{GatewayResponse, ResponseBody};

verus! {

/// The HTTP method of an inbound request, as far as routing cares: anything
/// but `GET` and `POST` is unmapped.
#[derive(Debug, Clone, Copy, PartialEq, Eq, Structural)]
pub enum HttpMethod {
    Get,
    Post,
    Other,
}

/// Where an inbound request is dispatched.
#[derive(Debug, Clone, Copy, PartialEq, Eq, Structural)]
pub enum Route {
    ChatCompletions,
    Completions,
    Health,
    NotFound,
}

/// The two endpoints whose requests are forwarded upstream.
#[derive(Debug, Clone, Copy, PartialEq, Eq, Structural)]
pub enum Endpoint {
    Chat,
    Completion,
}

/// The route of a request: an exact match on method and path.
pub open spec fn route_spec(method: HttpMethod, path: Seq<char>) -> Route {
    if method == HttpMethod::Post && path == "/v1/chat/completions"@ {
        Route::ChatCompletions
    } else if method == HttpMethod::Post && path == "/v1/completions"@ {
        Route::Completions
    } else if method == HttpMethod::Get && path == "/health"@ {
        Route::Health
    } else {
        Route::NotFound
    }
}

/// The forwarding endpoint of a route, if it has one.
pub open spec fn forwarding_endpoint_spec(route: Route) -> Option<Endpoint> {
    match route {
        Route::ChatCompletions => Some(Endpoint::Chat),
        Route::Completions => Some(Endpoint::Completion),
        Route::Health => None,
        Route::NotFound => None,
    }
}

/// Whether two strings hold the same characters.
fn str_eq(a: &str, b: &str) -> (r: bool)
    ensures
        r == (a@ == b@),
{
    let sa = String::from_str(a);
    let sb = String::from_str(b);
    sa == sb
}

/// Dispatch an inbound request by its method and exact path.
pub fn route_request(method: HttpMethod, path: &str) -> (r: Route)
    ensures
        r == route_spec(method, path@),
{
    match method {
        HttpMethod::Post => {
            if str_eq(path, "/v1/chat/completions") {
                Route::ChatCompletions
            } else if str_eq(path, "/v1/completions") {
                Route::Completions
            } else {
                Route::NotFound
            }
        },
        HttpMethod::Get => {
            if str_eq(path, "/health") {
                Route::Health
            } else {
                Route::NotFound
            }
        },
        HttpMethod::Other => Route::NotFound,
    }
}

/// The forwarding endpoint of a route, if it has one.
pub fn forwarding_endpoint(route: Route) -> (e: Option<Endpoint>)
    ensures
        e == forwarding_endpoint_spec(route),
{
    match route {
        Route::ChatCompletions => Some(Endpoint::Chat),
        Route::Completions => Some(Endpoint::Completion),
        Route::Health => None,
        Route::NotFound => None,
    }
}

/// The liveness reply: `GET /health` is answered directly, with no dependency
/// on the upstream service.
pub fn health_response() -> (r: GatewayResponse)
    ensures
        r.status == 200,
        (r.body matches ResponseBody::Text(t) && t@ == "OK"@),
{
    GatewayResponse { status: 200, body: ResponseBody::Text(String::from_str("OK")) }
}

/// The fallback reply: any unmapped method and path pair gets a 404 with an
/// empty body.
pub fn not_found_response() -> (r: GatewayResponse)
    ensures
        r.status == 404,
        r.body is Empty,
{
    GatewayResponse { status: 404, body: ResponseBody::Empty }
}

/// Requests are forwarded only from `POST` to one of the two completion
/// paths: `GET /health` and every unmapped method or path resolve to a route
/// with no forwarding endpoint, so they never reach the forwarding logic.
pub proof fn lemma_only_completion_routes_forward(method: HttpMethod, path: Seq<char>)
    ensures
        forwarding_endpoint_spec(route_spec(method, path)) is Some ==> method == HttpMethod::Post
            && (path == "/v1/chat/completions"@ || path == "/v1/completions"@),
        forwarding_endpoint_spec(route_spec(HttpMethod::Get, path)) is None,
{
}

} // verus!
