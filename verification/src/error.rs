//! Error model of the server: a status code and a plain-text message.
//!
//! The HTTP API exposes plain-text `500` responses for most application
//! failures and `400` for a missing WebSocket token.

use vstd::prelude::*;

verus! {

/// `500 Internal Server Error`.
pub const STATUS_INTERNAL_SERVER_ERROR: u16 = 500;

/// `400 Bad Request`.
pub const STATUS_BAD_REQUEST: u16 = 400;

/// An application failure answered with `status` and the plain-text `message`.
#[derive(Debug, Clone, PartialEq, Eq)]
pub struct AppError {
    pub status: u16,
    pub message: String,
}

impl AppError {
    /// A `500` failure.
    pub fn internal(message: String) -> (e: Self)
        ensures
            e.status == STATUS_INTERNAL_SERVER_ERROR,
            e.message@ == message@,
    {
        AppError { status: STATUS_INTERNAL_SERVER_ERROR, message }
    }

    /// A `400` failure.
    pub fn bad_request(message: String) -> (e: Self)
        ensures
            e.status == STATUS_BAD_REQUEST,
            e.message@ == message@,
    {
        AppError { status: STATUS_BAD_REQUEST, message }
    }

    /// A `500` failure carrying exactly `message`.
    pub open spec fn is_internal(self, message: Seq<char>) -> bool {
        self.status == STATUS_INTERNAL_SERVER_ERROR && self.message@ == message
    }
}

} // verus!
