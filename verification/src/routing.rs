//! Which endpoint of the server serves a request.

use vstd::prelude::*;

verus! {

/// The request methods that the routing tells apart.
#[derive(Clone, Copy, Debug, PartialEq, Eq, Structural)]
pub enum Method {
    Get,
    Post,
    /// Any other method.
    Other,
}

/// The endpoint that serves a request.
#[derive(Clone, Copy, Debug, PartialEq, Eq, Structural)]
pub enum Route {
    /// The health check, answered with an empty success.
    Health,
    /// Specialization through API v1.
    SpecializeV1,
    /// Specialization through API v2.
    SpecializeV2,
    /// A call of the loaded user function.
    RunFunction,
    /// A path of the server's own with a method it does not serve there; the
    /// method that it does serve is given.
    MethodNotAllowed(Method),
}

/// The path of the health check.
pub open spec fn spec_health_path() -> Seq<char> {
    "/healthz"@
}

/// The path of specialization through API v1.
pub open spec fn spec_specialize_v1_path() -> Seq<char> {
    "/specialize"@
}

/// The path of specialization through API v2.
pub open spec fn spec_specialize_v2_path() -> Seq<char> {
    "/v2/specialize"@
}

/// The endpoint for a method and a request path: the server's own paths
/// match exactly and each serves one method; every other path goes to the
/// user function, whatever the method.
pub open spec fn spec_route(method: Method, path: Seq<char>) -> Route {
    if path == spec_health_path() {
        if method == Method::Get { Route::Health } else { Route::MethodNotAllowed(Method::Get) }
    } else if path == spec_specialize_v1_path() {
        if method == Method::Post {
            Route::SpecializeV1
        } else {
            Route::MethodNotAllowed(Method::Post)
        }
    } else if path == spec_specialize_v2_path() {
        if method == Method::Post {
            Route::SpecializeV2
        } else {
            Route::MethodNotAllowed(Method::Post)
        }
    } else {
        Route::RunFunction
    }
}

/// The endpoint that serves a request with the given method and path.
pub fn route(method: Method, path: &String) -> (r: Route)
    ensures
        r == spec_route(method, path@),
{
    let health = String::from_str("/healthz");
    let specialize_v1 = String::from_str("/specialize");
    let specialize_v2 = String::from_str("/v2/specialize");
    if *path == health {
        match method {
            Method::Get => Route::Health,
            _ => Route::MethodNotAllowed(Method::Get),
        }
    } else if *path == specialize_v1 {
        match method {
            Method::Post => Route::SpecializeV1,
            _ => Route::MethodNotAllowed(Method::Post),
        }
    } else if *path == specialize_v2 {
        match method {
            Method::Post => Route::SpecializeV2,
            _ => Route::MethodNotAllowed(Method::Post),
        }
    } else {
        Route::RunFunction
    }
}

/// Proof that every path other than the server's own reaches the user
/// function, with any method.
pub proof fn lemma_other_paths_run_function(method: Method, path: Seq<char>)
    requires
        path != spec_health_path(),
        path != spec_specialize_v1_path(),
        path != spec_specialize_v2_path(),
    ensures
        spec_route(method, path) == Route::RunFunction,
{
}

/// Proof that the user function is reached only through paths other than
/// the server's own, and the specializations only by POST.
pub proof fn lemma_route_paths(method: Method, path: Seq<char>)
    ensures
        spec_route(method, path) == Route::RunFunction ==> path != spec_health_path() && path
            != spec_specialize_v1_path() && path != spec_specialize_v2_path(),
        spec_route(method, path) == Route::SpecializeV1 ==> method == Method::Post && path
            == spec_specialize_v1_path(),
        spec_route(method, path) == Route::SpecializeV2 ==> method == Method::Post && path
            == spec_specialize_v2_path(),
        spec_route(method, path) == Route::Health ==> method == Method::Get && path
            == spec_health_path(),
{
}

} // verus!
