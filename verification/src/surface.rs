//! Surface negotiation: which format, presentation mode, extent and image
//! count a swapchain is built with, given what the surface reports.
//!
//! Vulkan enumerants and flag sets are carried as their numbers.

use vstd::prelude::*;

verus! {

/// `VK_FORMAT_B8G8R8A8_SRGB`.
pub const FORMAT_B8G8R8A8_SRGB: i32 = 50;

/// `VK_COLOR_SPACE_SRGB_NONLINEAR_KHR`.
pub const COLOR_SPACE_SRGB_NONLINEAR: i32 = 0;

/// `VK_PRESENT_MODE_MAILBOX_KHR`.
pub const PRESENT_MODE_MAILBOX: i32 = 1;

/// `VK_PRESENT_MODE_FIFO_KHR`.
pub const PRESENT_MODE_FIFO: i32 = 2;

/// Width by which a surface says that it has no extent of its own and takes
/// the one of the swapchain.
pub const EXTENT_UNDEFINED: u32 = 0xFFFF_FFFF;

/// A size in pixels.
#[derive(Clone, Copy, Debug, PartialEq, Eq, Structural)]
pub struct Extent2D {
    pub width: u32,
    pub height: u32,
}

/// A pixel format together with the colour space it is presented in.
#[derive(Clone, Copy, Debug, PartialEq, Eq, Structural)]
pub struct SurfaceFormat {
    pub format: i32,
    pub color_space: i32,
}

/// What a surface can do on a physical device. A snapshot: it is asked for
/// anew whenever a swapchain is built.
#[derive(Clone, Copy, Debug, PartialEq, Eq, Structural)]
pub struct SurfaceCapabilities {
    pub min_image_count: u32,
    /// Zero when the surface sets no upper bound.
    pub max_image_count: u32,
    pub current_extent: Extent2D,
    pub min_image_extent: Extent2D,
    pub max_image_extent: Extent2D,
    pub supported_transforms: u32,
    pub current_transform: u32,
}

/// What a surface supports on a physical device.
#[derive(Clone, Debug, PartialEq, Eq)]
pub struct SwapchainSupport {
    pub capabilities: SurfaceCapabilities,
    pub formats: Vec<SurfaceFormat>,
    pub present_modes: Vec<i32>,
}

/// The mathematical content of a [`SwapchainSupport`].
pub struct SwapchainSupportView {
    pub capabilities: SurfaceCapabilities,
    pub formats: Seq<SurfaceFormat>,
    pub present_modes: Seq<i32>,
}

impl View for SwapchainSupport {
    type V = SwapchainSupportView;

    open spec fn view(&self) -> SwapchainSupportView {
        SwapchainSupportView {
            capabilities: self.capabilities,
            formats: self.formats@,
            present_modes: self.present_modes@,
        }
    }
}

/// Whether `f` is the format this renderer likes best: 8-bit BGRA in the
/// non-linear sRGB colour space.
pub open spec fn is_preferred_format(f: SurfaceFormat) -> bool {
    f.format == FORMAT_B8G8R8A8_SRGB && f.color_space == COLOR_SPACE_SRGB_NONLINEAR
}

/// The format chosen from a non-empty list: the first preferred entry, or
/// the first entry when none is preferred.
pub open spec fn chosen_surface_format(formats: Seq<SurfaceFormat>) -> SurfaceFormat
    recommends
        formats.len() > 0,
{
    if exists|i: int| 0 <= i < formats.len() && is_preferred_format(#[trigger] formats[i]) {
        SurfaceFormat { format: FORMAT_B8G8R8A8_SRGB, color_space: COLOR_SPACE_SRGB_NONLINEAR }
    } else {
        formats[0]
    }
}

/// The mode chosen from `present_modes`: mailbox when the surface offers it,
/// FIFO otherwise.
pub open spec fn chosen_present_mode(present_modes: Seq<i32>) -> i32 {
    if present_modes.contains(PRESENT_MODE_MAILBOX) {
        PRESENT_MODE_MAILBOX
    } else {
        PRESENT_MODE_FIFO
    }
}

/// `value` brought into `[low, high]`: the lower bound for a value below
/// it, else the upper bound for a value above that, else the value itself.
pub open spec fn clamped(value: u32, low: u32, high: u32) -> u32 {
    if value < low {
        low
    } else if value > high {
        high
    } else {
        value
    }
}

/// The extent chosen for a window of size `window`: the surface's own
/// extent where it has one, else the window's size clamped per axis.
pub open spec fn chosen_extent(window: Extent2D, capabilities: SurfaceCapabilities) -> Extent2D {
    if capabilities.current_extent.width != EXTENT_UNDEFINED {
        capabilities.current_extent
    } else {
        Extent2D {
            width: clamped(
                window.width,
                capabilities.min_image_extent.width,
                capabilities.max_image_extent.width,
            ),
            height: clamped(
                window.height,
                capabilities.min_image_extent.height,
                capabilities.max_image_extent.height,
            ),
        }
    }
}

/// The number of images asked for: one more than the minimum, but no more
/// than the maximum where there is one.
pub open spec fn chosen_image_count(capabilities: SurfaceCapabilities) -> int {
    let wanted = capabilities.min_image_count + 1;
    if capabilities.max_image_count != 0 && wanted > capabilities.max_image_count {
        capabilities.max_image_count as int
    } else {
        wanted
    }
}

/// Picks the surface format from the formats a surface supports.
pub fn get_swapchain_surface_format(formats: &Vec<SurfaceFormat>) -> (chosen: SurfaceFormat)
    requires
        formats.len() > 0,
    ensures
        chosen == chosen_surface_format(formats@),
        formats@.contains(chosen),
{
    let mut i: usize = 0;
    while i < formats.len()
        invariant
            i <= formats.len(),
            forall|j: int| 0 <= j < i ==> !is_preferred_format(#[trigger] formats@[j]),
        decreases formats.len() - i,
    {
        let f = formats[i];
        if f.format == FORMAT_B8G8R8A8_SRGB && f.color_space == COLOR_SPACE_SRGB_NONLINEAR {
            assert(is_preferred_format(formats@[i as int]));
            return f;
        }
        i += 1;
    }
    formats[0]
}

/// Picks the presentation mode from the modes a surface supports.
pub fn get_swapchain_present_mode(present_modes: &Vec<i32>) -> (mode: i32)
    ensures
        mode == chosen_present_mode(present_modes@),
{
    let mut i: usize = 0;
    while i < present_modes.len()
        invariant
            i <= present_modes.len(),
            forall|j: int| 0 <= j < i ==> present_modes@[j] != PRESENT_MODE_MAILBOX,
        decreases present_modes.len() - i,
    {
        if present_modes[i] == PRESENT_MODE_MAILBOX {
            return PRESENT_MODE_MAILBOX;
        }
        i += 1;
    }
    PRESENT_MODE_FIFO
}

fn clamp(value: u32, low: u32, high: u32) -> (r: u32)
    ensures
        r == clamped(value, low, high),
{
    if value < low {
        low
    } else if value > high {
        high
    } else {
        value
    }
}

/// Picks the swapchain's extent for a window whose inner size is `window`.
pub fn get_swapchain_extent(window: Extent2D, capabilities: SurfaceCapabilities) -> (extent:
    Extent2D)
    ensures
        extent == chosen_extent(window, capabilities),
{
    if capabilities.current_extent.width != EXTENT_UNDEFINED {
        capabilities.current_extent
    } else {
        Extent2D {
            width: clamp(
                window.width,
                capabilities.min_image_extent.width,
                capabilities.max_image_extent.width,
            ),
            height: clamp(
                window.height,
                capabilities.min_image_extent.height,
                capabilities.max_image_extent.height,
            ),
        }
    }
}

/// Picks the number of images to ask for.
pub fn get_swapchain_image_count(capabilities: SurfaceCapabilities) -> (count: u32)
    requires
        chosen_image_count(capabilities) <= u32::MAX,
    ensures
        count == chosen_image_count(capabilities),
{
    if capabilities.max_image_count != 0 && capabilities.min_image_count
        >= capabilities.max_image_count {
        capabilities.max_image_count
    } else {
        capabilities.min_image_count + 1
    }
}

/// Where the surface leaves the extent to the swapchain and its bounds do
/// not cross, the chosen extent lies within the bounds on each axis, and is
/// the window's size wherever that lies within them.
pub proof fn lemma_extent_within_bounds(window: Extent2D, capabilities: SurfaceCapabilities)
    requires
        capabilities.current_extent.width == EXTENT_UNDEFINED,
        capabilities.min_image_extent.width <= capabilities.max_image_extent.width,
        capabilities.min_image_extent.height <= capabilities.max_image_extent.height,
    ensures
        capabilities.min_image_extent.width <= chosen_extent(window, capabilities).width
            <= capabilities.max_image_extent.width,
        capabilities.min_image_extent.height <= chosen_extent(window, capabilities).height
            <= capabilities.max_image_extent.height,
        capabilities.min_image_extent.width <= window.width
            <= capabilities.max_image_extent.width ==> chosen_extent(window, capabilities).width
            == window.width,
        capabilities.min_image_extent.height <= window.height
            <= capabilities.max_image_extent.height ==> chosen_extent(
            window,
            capabilities,
        ).height == window.height,
{
}

/// The image count asked for is more than the minimum wherever the maximum
/// allows it, and never more than a maximum that is set.
pub proof fn lemma_image_count_within_bounds(capabilities: SurfaceCapabilities)
    ensures
        capabilities.max_image_count == 0 ==> chosen_image_count(capabilities)
            == capabilities.min_image_count + 1,
        capabilities.max_image_count != 0 ==> chosen_image_count(capabilities)
            <= capabilities.max_image_count,
        capabilities.max_image_count > capabilities.min_image_count ==> chosen_image_count(
            capabilities,
        ) == capabilities.min_image_count + 1,
        capabilities.max_image_count != 0 ==> chosen_image_count(capabilities) <= u32::MAX,
{
}


impl SwapchainSupportView {
    /// Whether a swapchain can be negotiated from this answer: there is a
    /// format and a presentation mode to choose from, and the image count
    /// asked for fits in 32 bits.
    pub open spec fn adequate(self) -> bool {
        &&& self.formats.len() > 0
        &&& self.present_modes.len() > 0
        &&& chosen_image_count(self.capabilities) <= u32::MAX
    }
}

impl SwapchainSupport {
    /// Puts together the answers to the three questions about a surface,
    /// asked in this order: capabilities, formats, presentation modes. Each
    /// answer is a value or a Vulkan error code; the first error code, in
    /// the order of the questions, is the outcome.
    pub fn get(
        capabilities: Result<SurfaceCapabilities, i32>,
        formats: Result<Vec<SurfaceFormat>, i32>,
        present_modes: Result<Vec<i32>, i32>,
    ) -> (support: Result<SwapchainSupport, i32>)
        ensures
            match (capabilities, formats, present_modes) {
                (Err(code), _, _) => support == Err::<SwapchainSupport, i32>(code),
                (Ok(_), Err(code), _) => support == Err::<SwapchainSupport, i32>(code),
                (Ok(_), Ok(_), Err(code)) => support == Err::<SwapchainSupport, i32>(code),
                (Ok(c), Ok(f), Ok(m)) => support matches Ok(s) && s@ == (SwapchainSupportView {
                    capabilities: c,
                    formats: f@,
                    present_modes: m@,
                }),
            },
    {
        let capabilities = match capabilities {
            Ok(capabilities) => capabilities,
            Err(code) => {
                return Err(code);
            },
        };
        let formats = match formats {
            Ok(formats) => formats,
            Err(code) => {
                return Err(code);
            },
        };
        let present_modes = match present_modes {
            Ok(present_modes) => present_modes,
            Err(code) => {
                return Err(code);
            },
        };
        Ok(SwapchainSupport { capabilities, formats, present_modes })
    }

    /// Whether a swapchain can be negotiated from this answer.
    pub fn is_adequate(&self) -> (ok: bool)
        ensures
            ok == self@.adequate(),
    {
        self.formats.len() > 0 && self.present_modes.len() > 0 && (
        self.capabilities.min_image_count < u32::MAX || self.capabilities.max_image_count != 0)
    }
}

} // verus!
