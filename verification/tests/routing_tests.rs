use environment_server::routing::{route, Method, Route};

fn r(method: Method, path: &str) -> Route {
    route(method, &path.to_string())
}

#[test]
fn health_check_route() {
    assert!(r(Method::Get, "/healthz") == Route::Health);
    assert!(r(Method::Post, "/healthz") == Route::MethodNotAllowed(Method::Get));
}

#[test]
fn specialize_routes() {
    assert!(r(Method::Post, "/specialize") == Route::SpecializeV1);
    assert!(r(Method::Post, "/v2/specialize") == Route::SpecializeV2);
    assert!(r(Method::Get, "/specialize") == Route::MethodNotAllowed(Method::Post));
    assert!(r(Method::Other, "/v2/specialize") == Route::MethodNotAllowed(Method::Post));
}

#[test]
fn other_paths_run_the_user_function() {
    assert!(r(Method::Get, "/") == Route::RunFunction);
    assert!(r(Method::Post, "/anything") == Route::RunFunction);
    assert!(r(Method::Other, "/healthz/") == Route::RunFunction);
    assert!(r(Method::Post, "/specialize/") == Route::RunFunction);
    assert!(r(Method::Get, "") == Route::RunFunction);
}
