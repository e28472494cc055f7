//! Error taxonomy for the bootstrap and the frame loop.

use vstd::prelude::*;

verus! {

/// Why one candidate physical device was rejected. Rejection of a single
/// candidate is not fatal: selection moves on to the next candidate and
/// only fails once every candidate has been rejected.
#[derive(Clone, Copy, Debug, PartialEq, Eq, Structural)]
pub enum SuitabilityReason {
    /// No queue family of the device supports graphics submission.
    NoGraphicsQueueFamily,
    /// No queue family of the device can present to the surface.
    NoPresentQueueFamily,
    /// The device's extension set does not cover every required extension.
    MissingRequiredExtension,
    /// The device/surface pairing exposes no surface format.
    NoSurfaceFormats,
    /// The device/surface pairing exposes no present mode.
    NoPresentModes,
}

/// Fatal failure of device selection: every enumerated candidate was
/// rejected.
#[derive(Clone, Copy, Debug, PartialEq, Eq, Structural)]
pub enum DeviceError {
    NoSuitableDevice,
}

/// Fatal failure inside the steady-state frame loop.
#[derive(Clone, Copy, Debug, PartialEq, Eq, Structural)]
pub enum FrameError {
    /// The acquired image index does not address any swapchain image.
    ImageIndexOutOfRange,
    /// An event arrived that the current state of the frame cycle cannot
    /// accept (for example a present completion while no work was
    /// submitted).
    ProtocolViolation,
}

/// Violation of an internal lifetime or index-alignment invariant. This is
/// a programmer error: the caller is expected to abort rather than recover.
#[derive(Clone, Copy, Debug, PartialEq, Eq, Structural)]
pub enum LifecycleError {
    /// The per-swapchain-image collections do not all have the same length.
    IndexMisalignment,
}

/// Failure to accept a shader bytecode blob.
#[derive(Clone, Copy, Debug, PartialEq, Eq, Structural)]
pub enum ShaderError {
    /// Bytecode must be non-empty and a whole number of 4-byte words.
    MalformedBytecode,
}

} // verus!
