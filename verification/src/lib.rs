//! Decision logic for bootstrapping a GPU rendering context and driving a
//! per-frame presentation loop.
//!
//! The library computes every decision the bootstrap has to make — which
//! physical device to select, how to negotiate the swapchain's format,
//! present mode, extent and image count, what the render pass and the
//! per-image command recordings look like, how the per-frame
//! acquire/submit/present cycle advances, and in which order resources are
//! torn down — from plain values. A thin unverified shell queries the
//! graphics API, hands the answers here, and performs the planned calls.

use vstd::prelude::*;

pub mod command;
pub mod debug;
pub mod device;
pub mod error;
pub mod frame;
pub mod lifecycle;
pub mod render_targets;
pub mod shader;
pub mod swapchain;

verus! {

} // verus!
