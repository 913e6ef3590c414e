//! The reply to a forwarded request: the upstream's response as it came, or
//! a bad-gateway response that describes the failure.
use vstd::prelude::*;

verus! {

/// The status of a bad-gateway response.
pub const BAD_GATEWAY: u16 = 502;

/// A response made by the proxy itself.
#[derive(Clone, Debug, PartialEq, Eq)]
pub struct ErrorResponse {
    pub status: u16,
    pub body: String,
}

/// The response for a failed forward: status 502, the failure's description
/// as the body.
pub fn bad_gateway(description: String) -> (r: ErrorResponse)
    ensures
        r.status == BAD_GATEWAY,
        r.body == description,
{
    ErrorResponse { status: BAD_GATEWAY, body: description }
}

/// The reply to a forward: the upstream's response unchanged, or, when the
/// upstream could not be reached, a bad-gateway response with the
/// description of the failure.
pub fn forward_reply<R>(outcome: Result<R, String>) -> (r: Result<R, ErrorResponse>)
    ensures
        match outcome {
            Ok(resp) => r == Ok::<R, ErrorResponse>(resp),
            Err(d) => r == Err::<R, ErrorResponse>(ErrorResponse { status: BAD_GATEWAY, body: d }),
        },
{
    match outcome {
        Ok(resp) => Ok(resp),
        Err(d) => Err(bad_gateway(d)),
    }
}

} // verus!
