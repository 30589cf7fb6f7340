//! The failures the presenter can report, by the phase in which they occur.

use vstd::prelude::*;

verus! {

/// A failure while a rendering context is being set up. Each one ends the run
/// before a window is shown.
#[derive(Clone, Copy, Debug, PartialEq, Eq, Structural)]
pub enum SetupError {
    /// The platform offered no configuration at all.
    NoSuitableConfig,
    /// No configuration belongs to the requested graphics API family.
    NoCompatibleApi,
    /// The platform could not create a context for the chosen configuration.
    ContextCreationFailed,
    /// The platform could not create the drawable surface.
    SurfaceCreationFailed,
    /// The context could not be made current on the calling thread.
    MakeCurrentFailed,
}

/// A failure while the resources of the pipeline are created. Each one ends
/// the run at startup.
#[derive(Clone, Copy, Debug, PartialEq, Eq, Structural)]
pub enum ResourceError {
    /// The device rejected a shader stage.
    ShaderCompileFailed,
    /// The image is not laid out as four channels of eight bits.
    UnsupportedImageFormat,
    /// A buffer or texture could not be handed to the device.
    UploadFailed,
}

/// A failure during one frame of the steady-state loop. It is logged and the
/// loop goes on with the next tick.
#[derive(Clone, Copy, Debug, PartialEq, Eq, Structural)]
pub enum FrameError {
    /// The draw call failed.
    RedrawFailed,
    /// The back buffer could not be presented.
    PresentFailed,
}

/// Why the run ended before the first frame.
#[derive(Clone, Copy, Debug, PartialEq, Eq, Structural)]
pub enum FatalError {
    /// Setting up the context failed.
    Setup(SetupError),
    /// Creating the pipeline's resources failed.
    Resource(ResourceError),
}

} // verus!
