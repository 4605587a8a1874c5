//! The request/response vocabulary shared by the router and the handlers.

use vstd::prelude::*;

verus! {

/// Status of a successful request.
pub const STATUS_OK: u16 = 200;

/// Status of a request whose target does not match any handler or file.
pub const STATUS_NOT_FOUND: u16 = 404;

/// Status of an internal failure while serving a request.
pub const STATUS_SERVER_ERROR: u16 = 500;

/// The request methods the server distinguishes. Every method other than GET
/// and POST is handled identically, so they are folded into one variant.
#[derive(Clone, Copy, Debug, PartialEq, Eq, Structural)]
pub enum HttpMethod {
    Get,
    Post,
    Other,
}

/// The body of a response as a handler decides it: nothing, listing text
/// accumulated in memory, or bytes produced chunk by chunk by a download
/// stream after the response has begun.
#[derive(Debug)]
pub enum ResponseBody {
    Empty,
    Text(String),
    Streamed,
}

/// A response as the routing and handler logic determines it.
#[derive(Debug)]
pub struct Response {
    pub status: u16,
    pub body: ResponseBody,
}

/// The response for a request that matches no handler: 404 with an empty body.
pub fn no_route_response() -> (r: Response)
    ensures
        r.status == STATUS_NOT_FOUND,
        r.body is Empty,
{
    Response { status: STATUS_NOT_FOUND, body: ResponseBody::Empty }
}

} // verus!
