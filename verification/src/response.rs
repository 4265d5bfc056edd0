//! The one response that the server gives to every request.

use vstd::prelude::*;

verus! {

/// The body of every response.
pub const GREETING: &'static str = "Hello from secure TLS server!";

/// The body sent in answer to any request.
pub fn response_body() -> (body: &'static str)
    ensures
        body@ == GREETING@,
{
    GREETING
}

/// Answers a request. The answer is the greeting, whatever the method and
/// the path of the request.
pub fn handle_request(method: &str, path: &str) -> (body: &'static str)
    ensures
        body@ == GREETING@,
{
    response_body()
}

} // verus!
