//! A minimal GPU command-submission core.
//!
//! The crate holds the rules of a small rendering and compute framework as
//! plain data and total functions: how a device is negotiated, how a surface
//! is configured and resized, what a pipeline is built from, how buffers are
//! sized, copied and read back, and in which order the steps of one frame may
//! happen. The caller owns the device handles and performs what the returned
//! actions ask for.

pub mod app;
pub mod command;
pub mod device;
pub mod error;
pub mod frame;
pub mod pipeline;
pub mod shader;
pub mod surface;
pub mod transfer;

pub use app::{App, WgpuApp, WindowCommand, WindowEvent};
pub use device::{Acquisition, DeviceContext};
pub use error::GpuError;
pub use frame::{FrameAction, FrameDriver, FrameEvent, FrameState};
pub use pipeline::PipelineDescriptor;
pub use surface::{SurfaceCapabilities, SurfaceConfig, SurfaceState};
pub use transfer::GpuBuffer;
