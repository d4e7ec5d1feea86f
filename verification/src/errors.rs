//! Error taxonomy of the core, mirroring how the gateway reports outcomes:
//! field-level validation failures, uniqueness conflicts, a merged
//! not-found/unauthorized outcome, and internal failures.

use vstd::prelude::*;

verus! {

/// Failure of a single storage operation.
#[derive(Clone, Copy, Debug, PartialEq, Eq, Structural)]
pub enum StoreError {
    /// A unique constraint (slug, username or email) was violated.
    Conflict,
    /// No row matched; also covers owner mismatches, which must be
    /// indistinguishable from absence.
    NotFound,
}

/// Field-level validation failure on user-supplied data.
#[derive(Clone, Copy, Debug, PartialEq, Eq, Structural)]
pub enum ValidationError {
    /// Username shorter than the minimum length.
    UsernameTooShort,
    /// Email address not in a valid format.
    EmailInvalid,
    /// Password shorter than the minimum length.
    PasswordTooShort,
}

/// Failure surfaced by the gateway-facing operations.
#[derive(Clone, Copy, Debug, PartialEq, Eq, Structural)]
pub enum ApiError {
    /// Rejected before reaching storage.
    Validation(ValidationError),
    /// A unique constraint was violated.
    Conflict,
    /// Merged not-found / wrong-owner / wrong-credentials outcome; never
    /// reveals which of those occurred.
    NotFound,
    /// Caller presented no resolvable session.
    Unauthorized,
    /// The request contradicts the caller's session state.
    BadRequest,
    /// The hashing library or a worker's storage connection failed.
    Internal,
}

} // verus!
