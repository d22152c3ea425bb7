//! An authentication gate for request pipelines built around JSON Web Tokens.
//!
//! The crate verifies a bearer credential attached to an incoming request,
//! decodes its claims with a rotating set of verification keys, runs an
//! optional application-supplied authorization decision, and either admits
//! the request to a downstream handler or rejects it immediately.

mod decode;
mod error;
mod extract;
mod layer;
mod response;

pub use crate::decode::Decoder;
pub use crate::decode::Key;
pub use crate::error::Error;
pub use crate::extract::AuthorizationExtract;
pub use crate::extract::Bearer;
pub use crate::extract::Claims;
pub use crate::extract::Extract;
pub use crate::extract::Headers;
pub use crate::extract::Token;
pub use crate::layer::layer;
pub use crate::layer::authorize;
pub use crate::layer::Admission;
pub use crate::layer::Discard;
pub use crate::layer::Jwt;
pub use crate::layer::JwtFuture;
pub use crate::layer::JwtLayer;
pub use crate::layer::Output;
pub use crate::layer::Predicate;
pub use crate::layer::Validate;
pub use crate::response::Response;
pub use crate::response::UNAUTHORIZED;
pub use jsonwebtoken;
