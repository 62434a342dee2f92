use roost::model::ResponseBody;
use roost::routing::{
    forwarding_endpoint, health_response, not_found_response, route_request, Endpoint, HttpMethod,
    Route,
};

#[test]
fn post_chat_completions_is_routed() {
    let r = route_request(HttpMethod::Post, "/v1/chat/completions");
    assert_eq!(r, Route::ChatCompletions);
    assert_eq!(forwarding_endpoint(r), Some(Endpoint::Chat));
}

#[test]
fn post_completions_is_routed() {
    let r = route_request(HttpMethod::Post, "/v1/completions");
    assert_eq!(r, Route::Completions);
    assert_eq!(forwarding_endpoint(r), Some(Endpoint::Completion));
}

#[test]
fn get_health_never_reaches_forwarding() {
    let r = route_request(HttpMethod::Get, "/health");
    assert_eq!(r, Route::Health);
    assert_eq!(forwarding_endpoint(r), None);
}

#[test]
fn wrong_method_on_chat_path_is_not_found() {
    let r = route_request(HttpMethod::Get, "/v1/chat/completions");
    assert_eq!(r, Route::NotFound);
    assert_eq!(forwarding_endpoint(r), None);
}

#[test]
fn unknown_paths_and_methods_are_not_found() {
    assert_eq!(route_request(HttpMethod::Post, "/health"), Route::NotFound);
    assert_eq!(route_request(HttpMethod::Post, "/v1/chat"), Route::NotFound);
    assert_eq!(route_request(HttpMethod::Post, ""), Route::NotFound);
    assert_eq!(
        route_request(HttpMethod::Post, "/v1/chat/completions/"),
        Route::NotFound
    );
    assert_eq!(route_request(HttpMethod::Other, "/health"), Route::NotFound);
    assert_eq!(
        route_request(HttpMethod::Other, "/v1/chat/completions"),
        Route::NotFound
    );
}

#[test]
fn health_response_is_200_ok() {
    let r = health_response();
    assert_eq!(r.status, 200);
    assert_eq!(r.body, ResponseBody::Text("OK".to_string()));
    assert!(!r.is_json());
}

#[test]
fn not_found_response_is_404_empty() {
    let r = not_found_response();
    assert_eq!(r.status, 404);
    assert_eq!(r.body, ResponseBody::Empty);
    assert!(!r.is_json());
}
