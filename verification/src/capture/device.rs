//! Capture devices and capture errors.

use vstd::prelude::*;

verus! {

/// A network device available for capture.
#[derive(Debug, Clone)]
pub struct CaptureDevice {
    /// Device name (e.g., "eth0", "en0").
    pub name: String,
    /// Device description.
    pub description: Option<String>,
    /// IP addresses assigned to this device.
    pub addresses: Vec<String>,
    /// Is this a loopback device?
    pub is_loopback: bool,
    /// Is the device up?
    pub is_up: bool,
    /// Is the device running?
    pub is_running: bool,
}

/// Capture error type.
#[derive(Debug)]
pub enum CaptureError {
    /// No capture device found.
    NoDeviceFound,
    /// Device not found.
    DeviceNotFound(String),
    /// Permission denied.
    PermissionDenied,
    /// Invalid filter.
    InvalidFilter(String),
    /// Capture already running.
    AlreadyRunning,
    /// Capture not started.
    NotStarted,
    /// PCAP error.
    PcapError(String),
    /// Decode error.
    DecodeError(String),
    /// IO error (its message).
    Io(String),
    /// Timeout.
    Timeout,
    /// Capture stopped.
    Stopped,
}

/// A device-open failure is a permission problem when the capture library's
/// message mentions "permission".
pub open spec fn open_error_kind(message: Seq<char>) -> bool {
    crate::text::contains_seq(message, "permission"@)
}

/// Maps the capture library's message for a failure to open a device to the
/// error reported: permission denied when the message mentions
/// "permission", else the message itself.
pub fn open_error(message: String) -> (r: CaptureError)
    ensures
        open_error_kind(message@) ==> r is PermissionDenied,
        !open_error_kind(message@) ==> (r matches CaptureError::PcapError(m) && m@ == message@),
{
    if crate::text::contains(message.as_str(), "permission") {
        CaptureError::PermissionDenied
    } else {
        CaptureError::PcapError(message)
    }
}

} // verus!
