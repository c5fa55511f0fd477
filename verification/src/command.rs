//! The commands that the renderer hands out and the replies it takes back.
//!
//! Nothing here touches a device. A [`Command`] says what is to be done;
//! whoever owns the device does it and reports with a [`Reply`]. Handles are
//! carried as numbers, zero being the null handle.

use crate::device::{support_view, QueueFamily};
use crate::surface::{Extent2D, SwapchainSupport, SwapchainSupportView};
use vstd::prelude::*;

verus! {

/// The null handle.
pub const NULL_HANDLE: u64 = 0;

/// "Wait without a deadline", as a timeout in nanoseconds.
pub const NO_TIMEOUT: u64 = 0xFFFF_FFFF_FFFF_FFFF;

/// `VK_IMAGE_USAGE_COLOR_ATTACHMENT_BIT`.
pub const IMAGE_USAGE_COLOR_ATTACHMENT: u32 = 0x10;

/// `VK_SHARING_MODE_EXCLUSIVE`.
pub const SHARING_MODE_EXCLUSIVE: i32 = 0;

/// `VK_SHARING_MODE_CONCURRENT`.
pub const SHARING_MODE_CONCURRENT: i32 = 1;

/// `VK_COMPOSITE_ALPHA_OPAQUE_BIT_KHR`.
pub const COMPOSITE_ALPHA_OPAQUE: u32 = 1;

/// `VK_COMPONENT_SWIZZLE_IDENTITY`.
pub const COMPONENT_SWIZZLE_IDENTITY: i32 = 0;

/// `VK_IMAGE_ASPECT_COLOR_BIT`.
pub const IMAGE_ASPECT_COLOR: u32 = 1;

/// `VK_IMAGE_VIEW_TYPE_2D`.
pub const IMAGE_VIEW_TYPE_2D: i32 = 1;

/// `VK_PIPELINE_STAGE_COLOR_ATTACHMENT_OUTPUT_BIT`.
pub const PIPELINE_STAGE_COLOR_ATTACHMENT_OUTPUT: u32 = 0x400;

/// `VK_ERROR_OUT_OF_DATE_KHR`.
pub const ERROR_OUT_OF_DATE: i32 = -1000001004;

/// The kinds of object that are destroyed by handle.
#[derive(Clone, Copy, Debug, PartialEq, Eq, Structural)]
pub enum ObjectKind {
    Swapchain,
    ImageView,
    RenderPass,
    PipelineLayout,
    Pipeline,
    Framebuffer,
    CommandPool,
    Semaphore,
    Fence,
    DebugMessenger,
    Surface,
}

/// What a swapchain is created with.
#[derive(Clone, Debug, PartialEq, Eq)]
pub struct SwapchainCreateInfo {
    pub surface: u64,
    pub min_image_count: u32,
    pub image_format: i32,
    pub image_color_space: i32,
    pub image_extent: Extent2D,
    pub image_array_layers: u32,
    pub image_usage: u32,
    pub image_sharing_mode: i32,
    pub queue_family_indices: Vec<u32>,
    pub pre_transform: u32,
    pub composite_alpha: u32,
    pub present_mode: i32,
    pub old_swapchain: u64,
}

/// The mathematical content of a [`SwapchainCreateInfo`].
pub struct SwapchainCreateInfoView {
    pub surface: u64,
    pub min_image_count: u32,
    pub image_format: i32,
    pub image_color_space: i32,
    pub image_extent: Extent2D,
    pub image_array_layers: u32,
    pub image_usage: u32,
    pub image_sharing_mode: i32,
    pub queue_family_indices: Seq<u32>,
    pub pre_transform: u32,
    pub composite_alpha: u32,
    pub present_mode: i32,
    pub old_swapchain: u64,
}

impl View for SwapchainCreateInfo {
    type V = SwapchainCreateInfoView;

    open spec fn view(&self) -> SwapchainCreateInfoView {
        SwapchainCreateInfoView {
            surface: self.surface,
            min_image_count: self.min_image_count,
            image_format: self.image_format,
            image_color_space: self.image_color_space,
            image_extent: self.image_extent,
            image_array_layers: self.image_array_layers,
            image_usage: self.image_usage,
            image_sharing_mode: self.image_sharing_mode,
            queue_family_indices: self.queue_family_indices@,
            pre_transform: self.pre_transform,
            composite_alpha: self.composite_alpha,
            present_mode: self.present_mode,
            old_swapchain: self.old_swapchain,
        }
    }
}

/// How the components of an image are mapped to those of a view.
#[derive(Clone, Copy, Debug, PartialEq, Eq, Structural)]
pub struct ComponentMapping {
    pub r: i32,
    pub g: i32,
    pub b: i32,
    pub a: i32,
}

/// The part of an image that a view shows.
#[derive(Clone, Copy, Debug, PartialEq, Eq, Structural)]
pub struct ImageSubresourceRange {
    pub aspect_mask: u32,
    pub base_mip_level: u32,
    pub level_count: u32,
    pub base_array_layer: u32,
    pub layer_count: u32,
}

/// What an image view is created with.
#[derive(Clone, Copy, Debug, PartialEq, Eq, Structural)]
pub struct ImageViewCreateInfo {
    pub image: u64,
    pub view_type: i32,
    pub format: i32,
    pub components: ComponentMapping,
    pub subresource_range: ImageSubresourceRange,
}

/// What is learned before a swapchain is built: the queue families of the
/// physical device, what the surface supports (or the error code of the
/// first question about it that failed), and the window's inner size.
#[derive(Debug, PartialEq, Eq)]
pub struct SurfaceReport {
    pub queue_families: Vec<QueueFamily>,
    pub support: Result<SwapchainSupport, i32>,
    pub window: Extent2D,
}

/// The mathematical content of a [`SurfaceReport`].
pub struct SurfaceReportView {
    pub queue_families: Seq<QueueFamily>,
    pub support: Result<SwapchainSupportView, i32>,
    pub window: Extent2D,
}

impl View for SurfaceReport {
    type V = SurfaceReportView;

    open spec fn view(&self) -> SurfaceReportView {
        SurfaceReportView {
            queue_families: self.queue_families@,
            support: support_view(self.support),
            window: self.window,
        }
    }
}

/// One piece of work for whoever owns the device.
#[derive(Clone, Debug, PartialEq, Eq)]
pub enum Command {
    /// Wait until the device has nothing left to do.
    WaitDeviceIdle,
    /// Wait until a queue has nothing left to do.
    WaitQueueIdle { queue: u64 },
    /// Ask for the queue families, the surface's support and the window's
    /// size. Answered by [`Reply::Surface`].
    QuerySurface { physical_device: u64, surface: u64 },
    /// Create a swapchain. Answered by [`Reply::Handle`].
    CreateSwapchain { info: SwapchainCreateInfo },
    /// Ask for the images of a swapchain. Answered by [`Reply::Handles`].
    GetSwapchainImages { swapchain: u64 },
    /// Create one image view per entry. Answered by [`Reply::Handles`], in
    /// the same order.
    CreateImageViews { infos: Vec<ImageViewCreateInfo> },
    /// Create the render pass for images of this format. Answered by
    /// [`Reply::Handle`].
    CreateRenderPass { format: i32 },
    /// Create the pipeline layout and the graphics pipeline. Answered by
    /// [`Reply::Pipeline`].
    CreatePipeline { extent: Extent2D, render_pass: u64 },
    /// Create one framebuffer per image view. Answered by
    /// [`Reply::Handles`], in the same order.
    CreateFramebuffers { render_pass: u64, extent: Extent2D, views: Vec<u64> },
    /// Create the command pool. Answered by [`Reply::Handle`].
    CreateCommandPool,
    /// Allocate and record one command buffer per framebuffer. Answered
    /// by [`Reply::Handles`], in the same order.
    CreateCommandBuffers { pool: u64, framebuffers: Vec<u64> },
    /// Create the semaphores and fences of `frames` frame slots. Answered
    /// by [`Reply::SyncObjects`].
    CreateSyncObjects { frames: usize },
    /// Give command buffers back to their pool.
    FreeCommandBuffers { pool: u64, buffers: Vec<u64> },
    /// Destroy an object.
    Destroy { kind: ObjectKind, handle: u64 },
    /// Destroy the logical device.
    DestroyDevice,
    /// Destroy the instance.
    DestroyInstance,
    /// Acquire the next image to render to. Answered by
    /// [`Reply::Acquired`].
    AcquireNextImage { swapchain: u64, timeout: u64, semaphore: u64, fence: u64 },
    /// Wait until a fence is signalled.
    WaitForFences { fence: u64, timeout: u64 },
    /// Put a fence back into the unsignalled state.
    ResetFences { fence: u64 },
    /// Submit one command buffer.
    QueueSubmit {
        queue: u64,
        wait_semaphore: u64,
        wait_stage: u32,
        command_buffer: u64,
        signal_semaphore: u64,
        fence: u64,
    },
    /// Present an image. Answered by [`Reply::Presented`].
    QueuePresent { queue: u64, wait_semaphore: u64, swapchain: u64, image_index: u32 },
}

/// The mathematical content of a [`Command`].
pub enum CommandView {
    WaitDeviceIdle,
    WaitQueueIdle { queue: u64 },
    QuerySurface { physical_device: u64, surface: u64 },
    CreateSwapchain { info: SwapchainCreateInfoView },
    GetSwapchainImages { swapchain: u64 },
    CreateImageViews { infos: Seq<ImageViewCreateInfo> },
    CreateRenderPass { format: i32 },
    CreatePipeline { extent: Extent2D, render_pass: u64 },
    CreateFramebuffers { render_pass: u64, extent: Extent2D, views: Seq<u64> },
    CreateCommandPool,
    CreateCommandBuffers { pool: u64, framebuffers: Seq<u64> },
    CreateSyncObjects { frames: usize },
    FreeCommandBuffers { pool: u64, buffers: Seq<u64> },
    Destroy { kind: ObjectKind, handle: u64 },
    DestroyDevice,
    DestroyInstance,
    AcquireNextImage { swapchain: u64, timeout: u64, semaphore: u64, fence: u64 },
    WaitForFences { fence: u64, timeout: u64 },
    ResetFences { fence: u64 },
    QueueSubmit {
        queue: u64,
        wait_semaphore: u64,
        wait_stage: u32,
        command_buffer: u64,
        signal_semaphore: u64,
        fence: u64,
    },
    QueuePresent { queue: u64, wait_semaphore: u64, swapchain: u64, image_index: u32 },
}

impl View for Command {
    type V = CommandView;

    open spec fn view(&self) -> CommandView {
        match *self {
            Command::WaitDeviceIdle => CommandView::WaitDeviceIdle,
            Command::WaitQueueIdle { queue } => CommandView::WaitQueueIdle { queue },
            Command::QuerySurface { physical_device, surface } => CommandView::QuerySurface {
                physical_device,
                surface,
            },
            Command::CreateSwapchain { info } => CommandView::CreateSwapchain { info: info@ },
            Command::GetSwapchainImages { swapchain } => CommandView::GetSwapchainImages {
                swapchain,
            },
            Command::CreateImageViews { infos } => CommandView::CreateImageViews {
                infos: infos@,
            },
            Command::CreateRenderPass { format } => CommandView::CreateRenderPass { format },
            Command::CreatePipeline { extent, render_pass } => CommandView::CreatePipeline {
                extent,
                render_pass,
            },
            Command::CreateFramebuffers {
                render_pass,
                extent,
                views,
            } => CommandView::CreateFramebuffers { render_pass, extent, views: views@ },
            Command::CreateCommandPool => CommandView::CreateCommandPool,
            Command::CreateCommandBuffers {
                pool,
                framebuffers,
            } => CommandView::CreateCommandBuffers { pool, framebuffers: framebuffers@ },
            Command::CreateSyncObjects { frames } => CommandView::CreateSyncObjects { frames },
            Command::FreeCommandBuffers { pool, buffers } => CommandView::FreeCommandBuffers {
                pool,
                buffers: buffers@,
            },
            Command::Destroy { kind, handle } => CommandView::Destroy { kind, handle },
            Command::DestroyDevice => CommandView::DestroyDevice,
            Command::DestroyInstance => CommandView::DestroyInstance,
            Command::AcquireNextImage {
                swapchain,
                timeout,
                semaphore,
                fence,
            } => CommandView::AcquireNextImage { swapchain, timeout, semaphore, fence },
            Command::WaitForFences { fence, timeout } => CommandView::WaitForFences {
                fence,
                timeout,
            },
            Command::ResetFences { fence } => CommandView::ResetFences { fence },
            Command::QueueSubmit {
                queue,
                wait_semaphore,
                wait_stage,
                command_buffer,
                signal_semaphore,
                fence,
            } => CommandView::QueueSubmit {
                queue,
                wait_semaphore,
                wait_stage,
                command_buffer,
                signal_semaphore,
                fence,
            },
            Command::QueuePresent {
                queue,
                wait_semaphore,
                swapchain,
                image_index,
            } => CommandView::QueuePresent { queue, wait_semaphore, swapchain, image_index },
        }
    }
}

/// The content of a list of commands, in order.
pub open spec fn command_views(commands: Seq<Command>) -> Seq<CommandView> {
    Seq::new(commands.len(), |i: int| commands[i]@)
}

/// What came of the last command of a batch.
#[derive(Debug, PartialEq, Eq)]
pub enum Reply {
    /// The command succeeded and has nothing to report.
    Done,
    /// The object that was created.
    Handle(u64),
    /// The objects that were created or found, in order.
    Handles(Vec<u64>),
    /// The pipeline layout and the pipeline that were created.
    Pipeline { layout: u64, pipeline: u64 },
    /// The answer to [`Command::QuerySurface`].
    Surface(SurfaceReport),
    /// The semaphores and fences that were created, one of each per frame
    /// slot.
    SyncObjects { image_available: Vec<u64>, render_finished: Vec<u64>, in_flight: Vec<u64> },
    /// The index of the image that was acquired.
    Acquired { image_index: u32 },
    /// The image was queued for presentation; `suboptimal` says whether the
    /// swapchain no longer matches the surface exactly.
    Presented { suboptimal: bool },
    /// The command failed with this Vulkan error code.
    Failed(i32),
}

/// The mathematical content of a [`Reply`].
pub enum ReplyView {
    Done,
    Handle(u64),
    Handles(Seq<u64>),
    Pipeline { layout: u64, pipeline: u64 },
    Surface(SurfaceReportView),
    SyncObjects { image_available: Seq<u64>, render_finished: Seq<u64>, in_flight: Seq<u64> },
    Acquired { image_index: u32 },
    Presented { suboptimal: bool },
    Failed(i32),
}

impl View for Reply {
    type V = ReplyView;

    open spec fn view(&self) -> ReplyView {
        match *self {
            Reply::Done => ReplyView::Done,
            Reply::Handle(handle) => ReplyView::Handle(handle),
            Reply::Handles(handles) => ReplyView::Handles(handles@),
            Reply::Pipeline { layout, pipeline } => ReplyView::Pipeline { layout, pipeline },
            Reply::Surface(report) => ReplyView::Surface(report@),
            Reply::SyncObjects {
                image_available,
                render_finished,
                in_flight,
            } => ReplyView::SyncObjects {
                image_available: image_available@,
                render_finished: render_finished@,
                in_flight: in_flight@,
            },
            Reply::Acquired { image_index } => ReplyView::Acquired { image_index },
            Reply::Presented { suboptimal } => ReplyView::Presented { suboptimal },
            Reply::Failed(code) => ReplyView::Failed(code),
        }
    }
}

} // verus!
