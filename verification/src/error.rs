//! Why an operation gives no result.

use crate::grant::TokenErrors;
use vstd::prelude::*;

verus! {

/// Why an operation gave no result.
#[derive(Clone, Copy, Debug, PartialEq, Eq, Structural)]
pub enum ClientError {
    /// The exchange with the server did not complete.
    Transport,
    /// The response is not JSON, or not of the shape that the operation
    /// expects.
    Parse,
    /// The token endpoint refused the request.
    Api(TokenErrors),
    /// The state of a callback is not pending, or has lapsed.
    StateMismatch,
    /// The token endpoint answered without an access token.
    MissingAccessToken,
    /// The user has no display name.
    MissingName,
    /// The user has no account identifier.
    MissingAccount,
}

} // verus!
