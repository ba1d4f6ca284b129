use vstd::prelude::*;
use vstd::string::*;

verus! {

/// The one fixed local endpoint the embedded server is assumed to listen
/// on after its settle delay.
pub open spec fn base_url() -> Seq<char> {
    "http://localhost:3001"@
}

/// The proxy failure line when the request could not be sent, around the
/// underlying cause.
pub open spec fn request_error_message(cause: Seq<char>) -> Seq<char> {
    "Request failed: "@ + cause
}

/// The proxy failure line when the response body could not be read, around
/// the underlying cause.
pub open spec fn read_error_message(cause: Seq<char>) -> Seq<char> {
    "Failed to read response: "@ + cause
}

/// The exact URL a proxy call targets: the fixed base, then the caller's
/// path suffix, nothing else.
pub fn endpoint_url(endpoint: &str) -> (r: String)
    ensures
        r@ == base_url() + endpoint@,
{
    let mut r = String::from_str("http://localhost:3001");
    r.append(endpoint);
    r
}

/// Wraps a cause in the request error line.
pub fn request_error_text(cause: &str) -> (r: String)
    ensures
        r@ == request_error_message(cause@),
{
    let mut m = String::from_str("Request failed: ");
    m.append(cause);
    m
}

/// Wraps a cause in the read error line.
pub fn read_error_text(cause: &str) -> (r: String)
    ensures
        r@ == read_error_message(cause@),
{
    let mut m = String::from_str("Failed to read response: ");
    m.append(cause);
    m
}

} // verus!
