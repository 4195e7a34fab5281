//! Auto-fix error types.

use vstd::prelude::*;
use crate::text::str_to_string;

verus! {

/// Errors that can occur during auto-fix operations.
#[derive(Debug)]
pub enum AutofixError {
    /// IO error (its message).
    Io(String),
    /// The fix failed to apply.
    FixFailed {
        /// Error message.
        message: String,
    },
    /// Rollback failed.
    RollbackFailed {
        /// Error message.
        message: String,
    },
    /// Rollback point not found.
    RollbackNotFound {
        /// Rollback point ID.
        id: String,
    },
    /// Permission denied.
    PermissionDenied {
        /// Error message.
        message: String,
    },
    /// Feature not supported on this platform.
    NotSupported {
        /// Feature name.
        feature: String,
    },
    /// Verification failed after applying fix.
    VerificationFailed {
        /// Error message.
        message: String,
    },
    /// Serialization error (its message).
    Serialization(String),
    /// Platform error (its message).
    Platform(String),
}

impl AutofixError {
    /// Creates a fix failed error.
    pub fn fix_failed(message: &str) -> (r: Self)
        ensures
            r matches AutofixError::FixFailed { message: m } && m@ == message@,
    {
        AutofixError::FixFailed { message: str_to_string(message) }
    }

    /// Creates a rollback failed error.
    pub fn rollback_failed(message: &str) -> (r: Self)
        ensures
            r matches AutofixError::RollbackFailed { message: m } && m@ == message@,
    {
        AutofixError::RollbackFailed { message: str_to_string(message) }
    }

    /// Creates a permission denied error.
    pub fn permission_denied(message: &str) -> (r: Self)
        ensures
            r matches AutofixError::PermissionDenied { message: m } && m@ == message@,
    {
        AutofixError::PermissionDenied { message: str_to_string(message) }
    }

    /// Creates a not supported error.
    pub fn not_supported(feature: &str) -> (r: Self)
        ensures
            r matches AutofixError::NotSupported { feature: f } && f@ == feature@,
    {
        AutofixError::NotSupported { feature: str_to_string(feature) }
    }

    /// Creates a verification failed error.
    pub fn verification_failed(message: &str) -> (r: Self)
        ensures
            r matches AutofixError::VerificationFailed { message: m } && m@ == message@,
    {
        AutofixError::VerificationFailed { message: str_to_string(message) }
    }
}

} // verus!
