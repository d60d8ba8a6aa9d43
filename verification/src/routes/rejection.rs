//! Failures as callers see them.

use vstd::prelude::*;

verus! {

/// The request lacks valid credentials.
pub const UNAUTHORIZED: u16 = 401;

/// What the request names is not there.
pub const NOT_FOUND: u16 = 404;

/// What the request would create is there already.
pub const CONFLICT: u16 = 409;

/// The service failed.
pub const INTERNAL_SERVER_ERROR: u16 = 500;

/// The external platform failed.
pub const BAD_GATEWAY: u16 = 502;

/// A failure as a caller sees it: an HTTP status and a message. The status
/// field of such a reply is always `error`.
#[derive(Debug)]
pub struct Rejection {
    pub status: u16,
    pub message: String,
}

impl Rejection {
    /// Whether a rejection has a given status and message.
    pub open spec fn says(self, status: u16, message: Seq<char>) -> bool {
        self.status == status && self.message@ == message
    }
}

} // verus!
