//! The error type that every fallible operation of the service returns.
//!
//! An `ApiError` carries the HTTP status code it is mapped to and a
//! human-readable message. The service distinguishes its outcomes only
//! through these two fields, so equality of errors is equality of both.

use vstd::prelude::*;

verus! {

/// A service error: the HTTP status code it maps to, and a message.
#[derive(Debug)]
pub struct ApiError {
    pub status_code: u16,
    pub message: String,
}

/// The mathematical value of an `ApiError`: its status code and the
/// characters of its message.
pub struct ApiErrorView {
    pub status_code: u16,
    pub message: Seq<char>,
}

impl View for ApiError {
    type V = ApiErrorView;

    open spec fn view(&self) -> ApiErrorView {
        ApiErrorView { status_code: self.status_code, message: self.message@ }
    }
}

/// The error value of a missing row: status 404.
pub open spec fn not_found_view() -> ApiErrorView {
    ApiErrorView { status_code: 404, message: "User not found"@ }
}

/// The one error value that every failed sign-in yields: status 401.
pub open spec fn invalid_credentials_view() -> ApiErrorView {
    ApiErrorView { status_code: 401, message: "Credentials not valid!"@ }
}

/// The error value of a request without a session identity: status 401.
pub open spec fn unauthorized_view() -> ApiErrorView {
    ApiErrorView { status_code: 401, message: "Unauthorized"@ }
}

/// The error value of a storage-level failure: status 500.
pub open spec fn storage_error_view() -> ApiErrorView {
    ApiErrorView { status_code: 500, message: "Storage error"@ }
}

/// The error value of a password-hashing failure: status 500.
pub open spec fn hash_error_view() -> ApiErrorView {
    ApiErrorView { status_code: 500, message: "Failed to hash password"@ }
}

/// The error value of a malformed stored hash: status 500.
pub open spec fn verify_error_view() -> ApiErrorView {
    ApiErrorView { status_code: 500, message: "Failed to verify password"@ }
}

impl ApiError {
    /// Build an error from a status code and a message.
    pub fn new(status_code: u16, message: String) -> (r: ApiError)
        ensures
            r@ == (ApiErrorView { status_code, message: message@ }),
    {
        ApiError { status_code, message }
    }

    /// The 404 error returned when no row matches.
    pub fn not_found() -> (r: ApiError)
        ensures
            r@ == not_found_view(),
    {
        ApiError { status_code: 404, message: "User not found".to_owned() }
    }

    /// The 401 error returned by every failed sign-in.
    pub fn invalid_credentials() -> (r: ApiError)
        ensures
            r@ == invalid_credentials_view(),
    {
        ApiError { status_code: 401, message: "Credentials not valid!".to_owned() }
    }

    /// The 401 error returned when a protected route is hit without a session.
    pub fn unauthorized() -> (r: ApiError)
        ensures
            r@ == unauthorized_view(),
    {
        ApiError { status_code: 401, message: "Unauthorized".to_owned() }
    }

    /// The 500 error returned on a storage-level failure.
    pub fn storage_error() -> (r: ApiError)
        ensures
            r@ == storage_error_view(),
    {
        ApiError { status_code: 500, message: "Storage error".to_owned() }
    }

    /// The 500 error returned when password hashing fails.
    pub fn hash_error() -> (r: ApiError)
        ensures
            r@ == hash_error_view(),
    {
        ApiError { status_code: 500, message: "Failed to hash password".to_owned() }
    }

    /// The 500 error returned when the stored hash cannot be decoded.
    pub fn verify_error() -> (r: ApiError)
        ensures
            r@ == verify_error_view(),
    {
        ApiError { status_code: 500, message: "Failed to verify password".to_owned() }
    }
}

} // verus!
