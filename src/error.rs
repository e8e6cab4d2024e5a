//! The error taxonomy of the API core, mapped to HTTP status codes only at
//! the boundary.

use vstd::prelude::*;

verus! {

/// Why a request failed.
#[derive(Clone, Debug)]
pub enum ApiError {
    /// Bad credentials, or a missing, malformed, forged or expired token.
    Unauthorized,
    /// Unknown id, a row without a frame, or a frame missing on disk.
    NotFound(String),
    /// A stored frame path that escapes the capture root.
    BadRequest(String),
    /// A fault of configuration, storage or encoding, with its cause.
    Internal(String),
}

/// The one message given for every authentication failure.
pub open spec fn unauthorized_message() -> Seq<char> {
    "unauthorized"@
}

impl ApiError {
    pub open spec fn status_spec(&self) -> u16 {
        match self {
            ApiError::Unauthorized => 401,
            ApiError::NotFound(_) => 404,
            ApiError::BadRequest(_) => 400,
            ApiError::Internal(_) => 500,
        }
    }

    pub open spec fn message_spec(&self) -> Seq<char> {
        match self {
            ApiError::Unauthorized => unauthorized_message(),
            ApiError::NotFound(m) => m@,
            ApiError::BadRequest(m) => m@,
            ApiError::Internal(m) => m@,
        }
    }

    /// The HTTP status code for this error.
    pub fn status_code(&self) -> (r: u16)
        ensures
            r == self.status_spec(),
    {
        match self {
            ApiError::Unauthorized => 401,
            ApiError::NotFound(_) => 404,
            ApiError::BadRequest(_) => 400,
            ApiError::Internal(_) => 500,
        }
    }

    /// The human-readable cause carried in the error body.
    pub fn message(&self) -> (r: String)
        ensures
            r@ == self.message_spec(),
    {
        match self {
            ApiError::Unauthorized => {
                proof {
                    reveal_strlit("unauthorized");
                }
                String::from_str("unauthorized")
            },
            ApiError::NotFound(m) => m.clone(),
            ApiError::BadRequest(m) => m.clone(),
            ApiError::Internal(m) => m.clone(),
        }
    }
}

} // verus!
