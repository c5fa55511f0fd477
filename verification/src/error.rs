//! What can go wrong, as values.

use vstd::prelude::*;
use vstd::string::*;

verus! {

/// Why a physical device was turned down. The field names what is missing.
#[derive(Clone, Copy, Debug, PartialEq, Eq)]
pub struct SuitabilityError(pub &'static str);

pub const MISSING_QUEUE_FAMILIES: &'static str = "Missing required queue families.";

pub const UNSUPPORTED_DEVICE_TYPE: &'static str = "Only discrete or integrated GPUs supported.";

pub const MISSING_GEOMETRY_SHADER: &'static str = "Missing geometry shader support.";

pub const MISSING_DEVICE_EXTENSIONS: &'static str = "Missing required device extensions.";

pub const INSUFFICIENT_SWAPCHAIN_SUPPORT: &'static str = "Insufficient swapchain support.";

impl SuitabilityError {
    /// The text shown for this error: the field between `Missing ` and a
    /// full stop.
    pub fn message(&self) -> (text: String)
        ensures
            text@ == "Missing "@ + self.0@ + "."@,
    {
        String::from_str("Missing ").concat(self.0).concat(".")
    }
}

/// A failure of the renderer.
#[derive(Clone, Copy, Debug, PartialEq, Eq)]
pub enum Error {
    /// A Vulkan command came back with this error code.
    Vulkan(i32),
    /// A physical device lacks something the renderer needs.
    Unsuitable(SuitabilityError),
    /// Validation was asked for and the validation layer is not installed.
    ValidationLayerUnavailable,
    /// No physical device passed the suitability check.
    NoSuitableDevice,
    /// No memory type is both allowed for the resource and has the
    /// properties asked for.
    NoSuitableMemoryType,
    /// The surface's answer cannot be built on: no format, no presentation
    /// mode, or an image count beyond what 32 bits hold.
    InsufficientSurface,
    /// The new swapchain came with no image, or the objects made for its
    /// images are not one per image.
    ImageCountMismatch,
    /// An acquired image index lies outside the swapchain.
    ImageOutOfRange,
    /// The reply does not answer the command that was issued, or there was
    /// no command to answer.
    UnexpectedReply,
    /// The renderer is not in a state in which this can be begun, or its
    /// record lacks the frame slot or the image that the step needs.
    NotReady,
}

} // verus!
