//! The error taxonomy shared by every store operation.

use vstd::prelude::*;

verus! {

/// Why a core operation failed.
///
/// `NotFound`: a referenced entity is absent. `BadRequest`: the input
/// itself is invalid (a taken username, a self-follow); it carries a
/// short message for the caller. `Unauthorized`: no user matches the
/// offered identity or credential. `Internal`: an unexpected failure
/// that fits none of the others.
#[derive(Debug, PartialEq, Eq)]
pub enum ApiError {
    NotFound,
    BadRequest(String),
    Unauthorized,
    Internal,
}

impl ApiError {
    /// The HTTP status code that an adapter should answer with.
    pub fn status_code(&self) -> (code: u16)
        ensures
            code == match self {
                ApiError::NotFound => 404u16,
                ApiError::BadRequest(_) => 400u16,
                ApiError::Unauthorized => 401u16,
                ApiError::Internal => 500u16,
            },
    {
        match self {
            ApiError::NotFound => 404,
            ApiError::BadRequest(_) => 400,
            ApiError::Unauthorized => 401,
            ApiError::Internal => 500,
        }
    }
}

} // verus!
