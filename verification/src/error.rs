//! Errors that the client's own logic produces.
use vstd::prelude::*;

verus! {

/// An error of a request, as decided by the client's logic. Transport
/// failures (WebSocket, HTTP, encoding) are reported by the layer that
/// performs the I/O.
#[derive(Clone, Debug, PartialEq, Eq)]
pub enum Error {
    /// The server answered the request with an error message.
    Api(String),
    /// No answer came in time.
    Timeout,
    /// The client is not connected, or the connection went away.
    Disconnected,
}

/// Turns the error message of a response, if any, into the outcome of the
/// request: an API error carrying that message, or success.
pub fn check_response(api_error: Option<String>) -> (r: Result<(), Error>)
    ensures
        api_error is None <==> r is Ok,
        api_error matches Some(message) ==> r matches Err(Error::Api(m)) && m@ == message@,
{
    match api_error {
        Some(message) => Err(Error::Api(message)),
        None => Ok(()),
    }
}

} // verus!
