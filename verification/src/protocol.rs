//! The messages exchanged with a user function compiled to WebAssembly.

use vstd::prelude::*;
use crate::environment::headers_view;

verus! {

/// A request as a WebAssembly user function receives it.
pub struct HttpRequest {
    pub method: String,
    pub uri: String,
    /// Header names and values, one entry per value.
    pub headers: Vec<(String, Vec<u8>)>,
    pub body: Vec<u8>,
}

/// A response as a WebAssembly user function returns it.
pub struct HttpResponse {
    pub status_code: u16,
    /// The headers in the order in which their map is walked: each name is
    /// given with its first value only, and the further values of that name
    /// follow with no name.
    pub headers: Vec<(Option<String>, Vec<u8>)>,
    pub body: Vec<u8>,
}

/// The request a WebAssembly user function is handed for a request to the
/// environment: its method, its URI, every header value (repeated names
/// kept, each name's values in the order given) and its body.
pub fn guest_request(method: String, uri: String, headers: Vec<(String, Vec<u8>)>, body: Vec<u8>) -> (req: HttpRequest)
    ensures
        req.method@ == method@,
        req.uri@ == uri@,
        headers_view(req.headers@) == headers_view(headers@),
        req.body@ == body@,
{
    HttpRequest { method, uri, headers, body }
}

} // verus!
