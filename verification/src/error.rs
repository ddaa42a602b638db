//! The ways a dispatch-and-readback cycle can fail.
//!
//! Every failure is fatal to the cycle: nothing is retried and no partial
//! result is handed out.

use vstd::prelude::*;

verus! {

/// What went wrong.
#[derive(Clone, Copy, Debug, PartialEq, Eq, Structural)]
pub enum ErrorKind {
    /// The platform offers no adapter that suits the request.
    NoAdapterFound,
    /// The adapter cannot provide a device with the requested features and limits.
    DeviceCreationFailed,
    /// The kernel source does not compile.
    ShaderCompilationError,
    /// The backend cannot provide a buffer of the requested size and usage.
    AllocationFailed,
    /// The buffers supplied do not fit the binding slots the kernel declares.
    BindingLayoutMismatch,
    /// The device could not be polled to completion.
    PollFailed,
}

/// A failure together with what the backend had to say about it: its own
/// description for adapter and device failures, the compiler's diagnostics for
/// a kernel that does not compile. The detail is empty where the failure was
/// found on the host.
#[derive(Debug, PartialEq, Eq)]
pub struct GpuError {
    pub kind: ErrorKind,
    pub detail: String,
}

impl ErrorKind {
    /// A one-line summary for the user.
    pub fn summary(self) -> (text: &'static str)
        ensures
            text@ == match self {
                ErrorKind::NoAdapterFound => "Failed to find a GPU"@,
                ErrorKind::DeviceCreationFailed => "Failed to create device"@,
                ErrorKind::ShaderCompilationError => "Failed to compile kernel"@,
                ErrorKind::AllocationFailed => "Failed to allocate buffer"@,
                ErrorKind::BindingLayoutMismatch => "Buffers do not match the kernel's bindings"@,
                ErrorKind::PollFailed => "Failed to poll device"@,
            },
    {
        match self {
            ErrorKind::NoAdapterFound => "Failed to find a GPU",
            ErrorKind::DeviceCreationFailed => "Failed to create device",
            ErrorKind::ShaderCompilationError => "Failed to compile kernel",
            ErrorKind::AllocationFailed => "Failed to allocate buffer",
            ErrorKind::BindingLayoutMismatch => "Buffers do not match the kernel's bindings",
            ErrorKind::PollFailed => "Failed to poll device",
        }
    }
}

impl GpuError {
    /// A failure reported by the backend, with the backend's own words.
    pub fn reported(kind: ErrorKind, detail: String) -> (error: GpuError)
        ensures
            error.kind == kind,
            error.detail@ == detail@,
    {
        GpuError { kind, detail }
    }

    /// A failure found on the host, with nothing to add.
    pub fn found(kind: ErrorKind) -> (error: GpuError)
        ensures
            error.kind == kind,
            error.detail@.len() == 0,
    {
        GpuError { kind, detail: String::new() }
    }
}

} // verus!
