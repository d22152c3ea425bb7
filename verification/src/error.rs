//! Errors that can occur while authenticating a request, and how each one is
//! recovered into a rejection response.

use vstd::prelude::*;
use jsonwebtoken::errors::Error as JwtError;
use crate::response::Response;
use crate::response::UNAUTHORIZED;

verus! {

/// Declares `jsonwebtoken::errors::Error`, the error produced by the token
/// verification library, so that it can be carried through this crate's own
/// error type. The value is opaque here: the interceptor deliberately does
/// not distinguish its sub-kinds when producing a response.
#[verifier::external_type_specification]
#[verifier::external_body]
pub struct ExJwtError(JwtError);

/// Errors that can occur during authentication.
pub enum Error<U> {
    /// Failed to extract authentication data from the request.
    Extract,
    /// JWT error: the token failed signature verification or claim
    /// validation under every key of the decoder.
    Jwt(JwtError),
    /// Custom error produced by an application-supplied decision.
    Custom(U),
}

impl<U> Error<U> {
    /// Maps the custom variant with `f`, leaving the other variants as they
    /// are.
    pub fn map<F, E>(self, f: F) -> (r: Error<E>) where F: FnOnce(U) -> E
        requires
            self is Custom ==> call_requires(f, (self->Custom_0,)),
        ensures
            self is Extract ==> r is Extract,
            self is Jwt ==> r is Jwt && r->Jwt_0 == self->Jwt_0,
            self is Custom ==> r is Custom && call_ensures(f, (self->Custom_0,), r->Custom_0),
    {
        match self {
            Self::Extract => Error::Extract,
            Self::Jwt(e) => Error::Jwt(e),
            Self::Custom(u) => Error::Custom(f(u)),
        }
    }
}

impl Error<Response> {
    /// The rejection response for this error: an absent token and a failed
    /// decode are indistinguishable from the outside, both answered with the
    /// fixed "unauthorized" status; a custom error carries its own response.
    pub fn into_response(self) -> (r: Response)
        ensures
            self is Custom ==> r == self->Custom_0,
            !(self is Custom) ==> r.status == UNAUTHORIZED,
    {
        match self {
            Error::Extract => Response::unauthorized(),
            Error::Jwt(_) => Response::unauthorized(),
            Error::Custom(u) => u,
        }
    }
}

} // verus!
