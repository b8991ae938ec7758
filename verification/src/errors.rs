//! Errors of the second-mind runtime.

use vstd::prelude::*;

verus! {

/// The public category of a second-mind failure.
#[derive(Clone, Copy, Debug, PartialEq, Eq, Structural)]
pub enum SecondMindErrorCode {
    InvalidArgument,
    Unauthenticated,
    PermissionDenied,
    NotFound,
    Conflict,
    Unavailable,
    DeadlineExceeded,
    Cancelled,
    Internal,
}

/// A content-free second-mind failure.
#[derive(Clone, Debug, PartialEq, Eq)]
pub struct SecondMindError {
    pub code: SecondMindErrorCode,
    pub summary: &'static str,
    pub retryable: bool,
    pub current_revision: Option<u64>,
}

/// The error of the given code and retry flag, with no revision.
pub open spec fn plain_error(e: SecondMindError, code: SecondMindErrorCode, summary: &'static str, retryable: bool) -> bool {
    e.code == code && e.summary == summary && e.retryable == retryable && e.current_revision is None
}

/// Whether `r` failed with an error of `code`.
pub open spec fn fails_with<T>(r: Result<T, SecondMindError>, code: SecondMindErrorCode) -> bool {
    match r {
        Err(e) => e.code == code,
        Ok(_) => false,
    }
}

/// Whether `r` failed with exactly the plain error described.
pub open spec fn fails_plain<T>(r: Result<T, SecondMindError>, code: SecondMindErrorCode, summary: &'static str, retryable: bool) -> bool {
    match r {
        Err(e) => plain_error(e, code, summary, retryable),
        Ok(_) => false,
    }
}

impl SecondMindError {
    /// A rejected argument; never retryable.
    pub fn invalid(summary: &'static str) -> (e: Self)
        ensures
            plain_error(e, SecondMindErrorCode::InvalidArgument, summary, false),
    {
        SecondMindError { code: SecondMindErrorCode::InvalidArgument, summary, retryable: false, current_revision: None }
    }

    /// A refused authority; never retryable.
    pub fn permission(summary: &'static str) -> (e: Self)
        ensures
            plain_error(e, SecondMindErrorCode::PermissionDenied, summary, false),
    {
        SecondMindError { code: SecondMindErrorCode::PermissionDenied, summary, retryable: false, current_revision: None }
    }

    /// A missing record; never retryable.
    pub fn not_found(summary: &'static str) -> (e: Self)
        ensures
            plain_error(e, SecondMindErrorCode::NotFound, summary, false),
    {
        SecondMindError { code: SecondMindErrorCode::NotFound, summary, retryable: false, current_revision: None }
    }

    /// A dependency that is currently unavailable; retryable.
    pub fn unavailable(summary: &'static str) -> (e: Self)
        ensures
            plain_error(e, SecondMindErrorCode::Unavailable, summary, true),
    {
        SecondMindError { code: SecondMindErrorCode::Unavailable, summary, retryable: true, current_revision: None }
    }

    /// A cancelled operation; never retryable.
    pub fn cancelled(summary: &'static str) -> (e: Self)
        ensures
            plain_error(e, SecondMindErrorCode::Cancelled, summary, false),
    {
        SecondMindError { code: SecondMindErrorCode::Cancelled, summary, retryable: false, current_revision: None }
    }

    /// An operation that ran past its deadline; retryable.
    pub fn deadline_exceeded(summary: &'static str) -> (e: Self)
        ensures
            plain_error(e, SecondMindErrorCode::DeadlineExceeded, summary, true),
    {
        SecondMindError { code: SecondMindErrorCode::DeadlineExceeded, summary, retryable: true, current_revision: None }
    }

    /// The error that reports a stale expected revision.
    pub open spec fn spec_conflict(current_revision: u64) -> SecondMindError {
        SecondMindError {
            code: SecondMindErrorCode::Conflict,
            summary: "The record changed; refresh and retry.",
            retryable: false,
            current_revision: Some(current_revision),
        }
    }

    /// A stale expected revision; carries the current revision.
    pub fn conflict(current_revision: u64) -> (e: Self)
        ensures
            e == Self::spec_conflict(current_revision),
    {
        SecondMindError {
            code: SecondMindErrorCode::Conflict,
            summary: "The record changed; refresh and retry.",
            retryable: false,
            current_revision: Some(current_revision),
        }
    }

    /// An idempotency key reused for different input.
    pub fn idempotency_conflict() -> (e: Self)
        ensures
            plain_error(
                e,
                SecondMindErrorCode::Conflict,
                "The idempotency key was already used for different input.",
                false,
            ),
    {
        SecondMindError {
            code: SecondMindErrorCode::Conflict,
            summary: "The idempotency key was already used for different input.",
            retryable: false,
            current_revision: None,
        }
    }
}

/// The category of a durable repository failure.
#[derive(Clone, Copy, Debug, PartialEq, Eq, Structural)]
pub enum RepositoryErrorKind {
    Conflict,
    NotFound,
    Unavailable,
    Corrupt,
    Internal,
}

/// A durable repository failure.
#[derive(Clone, Debug, PartialEq, Eq)]
pub struct RepositoryError {
    pub kind: RepositoryErrorKind,
    pub summary: &'static str,
}

/// The public code a repository failure maps to.
pub open spec fn repository_code(kind: RepositoryErrorKind) -> SecondMindErrorCode {
    match kind {
        RepositoryErrorKind::Conflict => SecondMindErrorCode::Conflict,
        RepositoryErrorKind::NotFound => SecondMindErrorCode::NotFound,
        RepositoryErrorKind::Unavailable => SecondMindErrorCode::Unavailable,
        RepositoryErrorKind::Corrupt | RepositoryErrorKind::Internal => SecondMindErrorCode::Internal,
    }
}

/// The second-mind error that reports `error`.
pub open spec fn spec_from_repository(error: RepositoryError) -> SecondMindError {
    SecondMindError {
        code: repository_code(error.kind),
        summary: error.summary,
        retryable: error.kind == RepositoryErrorKind::Unavailable,
        current_revision: None,
    }
}

impl From<RepositoryError> for SecondMindError {
    fn from(error: RepositoryError) -> (e: Self) {
        let (code, retryable) = match error.kind {
            RepositoryErrorKind::Conflict => (SecondMindErrorCode::Conflict, false),
            RepositoryErrorKind::NotFound => (SecondMindErrorCode::NotFound, false),
            RepositoryErrorKind::Unavailable => (SecondMindErrorCode::Unavailable, true),
            RepositoryErrorKind::Corrupt | RepositoryErrorKind::Internal => (SecondMindErrorCode::Internal, false),
        };
        SecondMindError { code, summary: error.summary, retryable, current_revision: None }
    }
}

impl vstd::std_specs::convert::FromSpecImpl<RepositoryError> for SecondMindError {
    open spec fn obeys_from_spec() -> bool {
        true
    }

    open spec fn from_spec(v: RepositoryError) -> SecondMindError {
        spec_from_repository(v)
    }
}

} // verus!
