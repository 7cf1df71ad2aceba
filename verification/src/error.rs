//! The failures that the core reports.

use vstd::prelude::*;

verus! {

/// Everything that can go wrong between acquiring a device and reading a
/// result back.
///
/// The first three are startup failures and end the program; the surface
/// failures cost one frame; the last two abort one compute job.
#[derive(Clone, Copy, Debug, PartialEq, Eq, Structural)]
pub enum GpuError {
    /// No backend offers an adapter that meets the request.
    AdapterUnavailable,
    /// The adapter refused to create a logical device.
    DeviceCreationFailed,
    /// The shader source does not compile, or lacks a required entry point.
    ShaderCompilationError,
    /// The surface was lost and has to be configured again.
    SurfaceLost,
    /// The surface no longer matches its window and has to be configured again.
    SurfaceOutdated,
    /// Two buffers of a copy differ in byte size.
    SizeMismatch,
    /// The device reported an error when a buffer was mapped for reading.
    MapFailed,
}

impl GpuError {
    /// Whether the failure ends the program: nothing is retried at startup,
    /// since the same request cannot succeed a second time.
    pub open spec fn is_fatal(self) -> bool {
        self is AdapterUnavailable || self is DeviceCreationFailed
            || self is ShaderCompilationError
    }

    /// Whether the failure is cured by configuring the surface again.
    pub open spec fn is_surface_failure(self) -> bool {
        self is SurfaceLost || self is SurfaceOutdated
    }

    /// Whether the failure aborts only the compute job in flight.
    pub open spec fn is_transfer_failure(self) -> bool {
        self is SizeMismatch || self is MapFailed
    }

    /// The text of [`GpuError::message`].
    pub open spec fn message_text(self) -> Seq<char> {
        match self {
            GpuError::AdapterUnavailable => "No adapter found"@,
            GpuError::DeviceCreationFailed => "Device request failed"@,
            GpuError::ShaderCompilationError => "Shader compilation failed"@,
            GpuError::SurfaceLost => "Surface lost"@,
            GpuError::SurfaceOutdated => "Surface outdated"@,
            GpuError::SizeMismatch => "Buffer size mismatch"@,
            GpuError::MapFailed => "Buffer mapping failed"@,
        }
    }

    /// Startup failures are fatal.
    pub fn fatal(self) -> (fatal: bool)
        ensures
            fatal == self.is_fatal(),
    {
        match self {
            GpuError::AdapterUnavailable => true,
            GpuError::DeviceCreationFailed => true,
            GpuError::ShaderCompilationError => true,
            _ => false,
        }
    }

    /// Surface failures are recovered from by configuring the surface again.
    pub fn recoverable(self) -> (recoverable: bool)
        ensures
            recoverable == self.is_surface_failure(),
    {
        match self {
            GpuError::SurfaceLost => true,
            GpuError::SurfaceOutdated => true,
            _ => false,
        }
    }

    /// A line of text for the person reading the log.
    pub fn message(self) -> (text: String)
        ensures
            text@ == self.message_text(),
    {
        match self {
            GpuError::AdapterUnavailable => "No adapter found".to_owned(),
            GpuError::DeviceCreationFailed => "Device request failed".to_owned(),
            GpuError::ShaderCompilationError => "Shader compilation failed".to_owned(),
            GpuError::SurfaceLost => "Surface lost".to_owned(),
            GpuError::SurfaceOutdated => "Surface outdated".to_owned(),
            GpuError::SizeMismatch => "Buffer size mismatch".to_owned(),
            GpuError::MapFailed => "Buffer mapping failed".to_owned(),
        }
    }
}

/// Every failure belongs to exactly one of the three classes.
pub proof fn error_classes_partition(error: GpuError)
    ensures
        error.is_fatal() || error.is_surface_failure() || error.is_transfer_failure(),
        !(error.is_fatal() && error.is_surface_failure()),
        !(error.is_fatal() && error.is_transfer_failure()),
        !(error.is_surface_failure() && error.is_transfer_failure()),
{
}

} // verus!
