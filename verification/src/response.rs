//! The HTTP responses the coordinator can render: a plain status code and a
//! body text. The surrounding server turns these into wire responses.
use vstd::prelude::*;
use vstd::string::StringExecFns;

verus! {

/// Status of a successful response.
pub const STATUS_OK: u16 = 200;

/// Status of every failure response.
pub const STATUS_INTERNAL_SERVER_ERROR: u16 = 500;

/// A response as the coordinator decides it: a status code and a body text.
pub struct HttpResponse {
    pub status: u16,
    pub body: String,
}

/// A success response carrying `body` as plain text.
pub fn build_response(body: &String) -> (r: HttpResponse)
    ensures
        r.status == STATUS_OK,
        r.body@ == body@,
{
    HttpResponse { status: STATUS_OK, body: body.clone() }
}

/// The response of a follower whose wait budget ran out before a fresh
/// entry appeared.
pub fn wait_timeout_response() -> (r: HttpResponse)
    ensures
        r.status == STATUS_INTERNAL_SERVER_ERROR,
        r.body@ == "Timed out while getting response"@,
{
    HttpResponse {
        status: STATUS_INTERNAL_SERVER_ERROR,
        body: String::from_str("Timed out while getting response"),
    }
}

/// The response of a leader whose own wait budget ran out before the
/// upstream call finished.
pub fn leader_timeout_response() -> (r: HttpResponse)
    ensures
        r.status == STATUS_INTERNAL_SERVER_ERROR,
        r.body@ == "timed out"@,
{
    HttpResponse { status: STATUS_INTERNAL_SERVER_ERROR, body: String::from_str("timed out") }
}

/// The response when the upstream call itself failed at the transport level.
pub fn transport_error_response() -> (r: HttpResponse)
    ensures
        r.status == STATUS_INTERNAL_SERVER_ERROR,
        r.body@ == "error response"@,
{
    HttpResponse { status: STATUS_INTERNAL_SERVER_ERROR, body: String::from_str("error response") }
}

/// The response when the upstream answered but its body could not be read;
/// the failing path is echoed in the message.
pub fn body_error_response(path: &String) -> (r: HttpResponse)
    ensures
        r.status == STATUS_INTERNAL_SERVER_ERROR,
        r.body@ == "error response when getting body text from "@ + path@,
{
    let mut body = String::from_str("error response when getting body text from ");
    body.append(path.as_str());
    HttpResponse { status: STATUS_INTERNAL_SERVER_ERROR, body }
}

/// The response when the pass-through proxy failed to reach its upstream:
/// an empty body.
pub fn proxy_error_response() -> (r: HttpResponse)
    ensures
        r.status == STATUS_INTERNAL_SERVER_ERROR,
        r.body@ == Seq::<char>::empty(),
{
    HttpResponse { status: STATUS_INTERNAL_SERVER_ERROR, body: String::new() }
}

/// The debug echo response: a rendering of the incoming request, produced by
/// the caller, returned verbatim with a success status.
pub fn debug_response(rendered: &String) -> (r: HttpResponse)
    ensures
        r.status == STATUS_OK,
        r.body@ == rendered@,
{
    HttpResponse { status: STATUS_OK, body: rendered.clone() }
}

} // verus!
