//! Errors of the hardware abstraction layer.
use crate::text::push_str;
use vstd::prelude::*;

verus! {

/// Why a HAL operation failed.
#[derive(Debug, Clone)]
pub enum HalError {
    /// A destructive operation was asked for without confirmation outside
    /// a dry run.
    SafetyLock,
    DiskBusy,
    PermissionDenied,
    ValidationFailed(String),
    CommandNotFound(String),
    Io(String),
    CommandFailed { program: String, code: Option<i32>, stderr: String },
    CommandTimeout { program: String, timeout_secs: u64 },
    Nix(i32),
    Other(String),
}

pub type HalResult<T> = Result<T, HalError>;

/// The message shown for an error.
pub open spec fn hal_error_message(e: HalError) -> Seq<char> {
    match e {
        HalError::SafetyLock => "Safety lock engaged (SAFE MODE). Disarm Safe Mode to proceed."@,
        HalError::DiskBusy => "Disk is busy (mounted or in use)"@,
        HalError::PermissionDenied => "Permission denied"@,
        HalError::ValidationFailed(m) => "Validation failed: "@ + m@,
        HalError::CommandNotFound(p) => "Command not found: "@ + p@,
        HalError::Io(m) => "I/O error: "@ + m@,
        HalError::CommandFailed { program, stderr, .. } => "Command failed: "@ + program@ + ": "@ + stderr@,
        HalError::CommandTimeout { program, .. } => "Command timed out: "@ + program@,
        HalError::Nix(_) => "System call failed"@,
        HalError::Other(m) => m@,
    }
}

impl HalError {
    /// The message shown for the error.
    pub fn message(&self) -> (r: String)
        ensures
            r@ == hal_error_message(*self),
    {
        match self {
            HalError::SafetyLock => String::from_str("Safety lock engaged (SAFE MODE). Disarm Safe Mode to proceed."),
            HalError::DiskBusy => String::from_str("Disk is busy (mounted or in use)"),
            HalError::PermissionDenied => String::from_str("Permission denied"),
            HalError::ValidationFailed(m) => {
                let mut s = String::from_str("Validation failed: ");
                push_str(&mut s, m.as_str());
                s
            },
            HalError::CommandNotFound(p) => {
                let mut s = String::from_str("Command not found: ");
                push_str(&mut s, p.as_str());
                s
            },
            HalError::Io(m) => {
                let mut s = String::from_str("I/O error: ");
                push_str(&mut s, m.as_str());
                s
            },
            HalError::CommandFailed { program, stderr, .. } => {
                let mut s = String::from_str("Command failed: ");
                push_str(&mut s, program.as_str());
                push_str(&mut s, ": ");
                push_str(&mut s, stderr.as_str());
                s
            },
            HalError::CommandTimeout { program, .. } => {
                let mut s = String::from_str("Command timed out: ");
                push_str(&mut s, program.as_str());
                s
            },
            HalError::Nix(_) => String::from_str("System call failed"),
            HalError::Other(m) => m.clone(),
        }
    }
}

/// The error for a failed `mount`/`umount` system call: busy and permission
/// errors get their own variants.
pub open spec fn errno_error_spec(errno: i32) -> HalError {
    if errno == 16 {
        HalError::DiskBusy
    } else if errno == 13 || errno == 1 {
        HalError::PermissionDenied
    } else {
        HalError::Nix(errno)
    }
}

/// Maps an errno (EBUSY 16, EACCES 13, EPERM 1) to a HAL error.
pub fn errno_error(errno: i32) -> (r: HalError)
    ensures
        r == errno_error_spec(errno),
{
    if errno == 16 {
        HalError::DiskBusy
    } else if errno == 13 || errno == 1 {
        HalError::PermissionDenied
    } else {
        HalError::Nix(errno)
    }
}

} // verus!
