//! Daemon error types.

use vstd::prelude::*;

verus! {

/// Errors that can occur in daemon operations.
#[derive(Debug)]
pub enum DaemonError {
    /// IO error (its message).
    Io(String),
    /// Configuration error.
    Config {
        /// Error message.
        message: String,
    },
    /// IPC error.
    Ipc {
        /// Error message.
        message: String,
    },
    /// Service error.
    Service {
        /// Error message.
        message: String,
    },
    /// Scheduler error.
    Scheduler {
        /// Error message.
        message: String,
    },
    /// The daemon is already running.
    AlreadyRunning {
        /// Process ID of the running daemon.
        pid: u32,
    },
    /// The daemon is not running.
    NotRunning,
    /// Permission denied.
    PermissionDenied {
        /// Error message.
        message: String,
    },
    /// Serialization error (its message).
    Serialization(String),
    /// TOML parsing error (its message).
    TomlParse(String),
    /// Platform-specific error.
    Platform {
        /// Error message.
        message: String,
    },
    /// Error reported by the platform layer (its message).
    Netdiag(String),
}

impl DaemonError {
    /// Creates a configuration error.
    pub fn config(message: String) -> (r: Self)
        ensures
            r matches DaemonError::Config { message: m } && m@ == message@,
    {
        DaemonError::Config { message }
    }

    /// Creates an IPC error.
    pub fn ipc(message: String) -> (r: Self)
        ensures
            r matches DaemonError::Ipc { message: m } && m@ == message@,
    {
        DaemonError::Ipc { message }
    }

    /// Creates a service error.
    pub fn service(message: String) -> (r: Self)
        ensures
            r matches DaemonError::Service { message: m } && m@ == message@,
    {
        DaemonError::Service { message }
    }

    /// Creates a scheduler error.
    pub fn scheduler(message: String) -> (r: Self)
        ensures
            r matches DaemonError::Scheduler { message: m } && m@ == message@,
    {
        DaemonError::Scheduler { message }
    }

    /// Creates a platform error.
    pub fn platform(message: String) -> (r: Self)
        ensures
            r matches DaemonError::Platform { message: m } && m@ == message@,
    {
        DaemonError::Platform { message }
    }
}

} // verus!
