//! The rejection side of the pipeline's outbound interface: a response
//! carrying at least a status code. A fixed "unauthorized" response is the
//! default rejection for every token failure.

use vstd::prelude::*;

verus! {

/// The HTTP status code for an unauthorized request.
pub const UNAUTHORIZED: u16 = 401;

/// A minimal response representation: a status code with an empty body.
///
/// The pipeline only ever needs to produce rejections from this crate's own
/// logic; richer bodies are attached by the surrounding web framework.
#[derive(Clone, Copy, Debug, PartialEq, Eq, Structural)]
pub struct Response {
    /// The HTTP status code of the response.
    pub status: u16,
}

impl Response {
    /// The fixed rejection used for an absent or invalid token.
    pub fn unauthorized() -> (r: Self)
        ensures
            r.status == UNAUTHORIZED,
    {
        Response { status: UNAUTHORIZED }
    }

    /// A response with the given status code.
    pub fn with_status(status: u16) -> (r: Self)
        ensures
            r.status == status,
    {
        Response { status }
    }
}

} // verus!
