//! Swapchain lifecycle and frame presentation protocol of a small Vulkan
//! renderer, kept free of any device access: every function here works on
//! plain values and handle numbers, and the caller performs the commands.

pub mod app;
pub mod command;
pub mod data;
pub mod descriptor;
pub mod device;
pub mod error;
pub mod instance;
pub mod search;
pub mod surface;
pub mod swapchain;
pub mod vertex;

use vstd::prelude::*;

verus! {

/// Number of frames that may be in flight on the device at once.
pub const MAX_FRAMES_IN_FLIGHT: usize = 2;

} // verus!
