//! The renderer's record of the Vulkan objects it owns.

use crate::command::NULL_HANDLE;
use crate::surface::Extent2D;
use crate::MAX_FRAMES_IN_FLIGHT;
use vstd::prelude::*;

verus! {

/// Every handle the renderer holds. Handles are numbers, zero being the
/// null handle; lists are empty until their objects exist.
#[derive(Clone, Debug, PartialEq, Eq)]
pub struct AppData {
    pub messenger: u64,
    pub physical_device: u64,
    pub graphics_queue: u64,
    pub surface: u64,
    pub present_queue: u64,
    pub swapchain_format: i32,
    pub swapchain_extent: Extent2D,
    pub swapchain: u64,
    /// The swapchain's images. They belong to the swapchain and are never
    /// destroyed one by one.
    pub swapchain_images: Vec<u64>,
    /// One view per swapchain image, in the same order.
    pub swapchain_image_views: Vec<u64>,
    pub render_pass: u64,
    pub pipeline_layout: u64,
    pub pipeline: u64,
    /// One framebuffer per image view, in the same order.
    pub framebuffers: Vec<u64>,
    pub command_pool: u64,
    /// One recorded command buffer per framebuffer, in the same order.
    pub command_buffers: Vec<u64>,
    /// Per frame slot: signalled when the acquired image may be written.
    pub image_available_semaphores: Vec<u64>,
    /// Per frame slot: signalled when rendering to the image is done.
    pub render_finished_semaphores: Vec<u64>,
    /// Per frame slot: signalled when the slot's submission has completed.
    pub in_flight_fences: Vec<u64>,
    /// Per swapchain image: the fence of the frame slot that last rendered
    /// to it, or the null handle.
    pub images_in_flight: Vec<u64>,
}

/// The synchronisation set of one frame slot. The sets are created once
/// and live until the teardown; a rebuild of the swapchain leaves them
/// alone.
#[derive(Clone, Copy, Debug, PartialEq, Eq, Structural)]
pub struct FrameSlot {
    /// Signalled when the acquired image may be written.
    pub image_available: u64,
    /// Signalled when rendering to the image is done.
    pub render_finished: u64,
    /// Signalled when the slot's submission has completed.
    pub in_flight: u64,
}

/// The mathematical content of an [`AppData`].
pub struct AppDataView {
    pub messenger: u64,
    pub physical_device: u64,
    pub graphics_queue: u64,
    pub surface: u64,
    pub present_queue: u64,
    pub swapchain_format: i32,
    pub swapchain_extent: Extent2D,
    pub swapchain: u64,
    pub swapchain_images: Seq<u64>,
    pub swapchain_image_views: Seq<u64>,
    pub render_pass: u64,
    pub pipeline_layout: u64,
    pub pipeline: u64,
    pub framebuffers: Seq<u64>,
    pub command_pool: u64,
    pub command_buffers: Seq<u64>,
    pub image_available_semaphores: Seq<u64>,
    pub render_finished_semaphores: Seq<u64>,
    pub in_flight_fences: Seq<u64>,
    pub images_in_flight: Seq<u64>,
}

impl View for AppData {
    type V = AppDataView;

    open spec fn view(&self) -> AppDataView {
        AppDataView {
            messenger: self.messenger,
            physical_device: self.physical_device,
            graphics_queue: self.graphics_queue,
            surface: self.surface,
            present_queue: self.present_queue,
            swapchain_format: self.swapchain_format,
            swapchain_extent: self.swapchain_extent,
            swapchain: self.swapchain,
            swapchain_images: self.swapchain_images@,
            swapchain_image_views: self.swapchain_image_views@,
            render_pass: self.render_pass,
            pipeline_layout: self.pipeline_layout,
            pipeline: self.pipeline,
            framebuffers: self.framebuffers@,
            command_pool: self.command_pool,
            command_buffers: self.command_buffers@,
            image_available_semaphores: self.image_available_semaphores@,
            render_finished_semaphores: self.render_finished_semaphores@,
            in_flight_fences: self.in_flight_fences@,
            images_in_flight: self.images_in_flight@,
        }
    }
}

impl AppDataView {
    /// The record that holds nothing: every handle null, every list empty.
    pub open spec fn empty() -> AppDataView {
        AppDataView {
            messenger: NULL_HANDLE,
            physical_device: NULL_HANDLE,
            graphics_queue: NULL_HANDLE,
            surface: NULL_HANDLE,
            present_queue: NULL_HANDLE,
            swapchain_format: 0,
            swapchain_extent: Extent2D { width: 0, height: 0 },
            swapchain: NULL_HANDLE,
            swapchain_images: Seq::empty(),
            swapchain_image_views: Seq::empty(),
            render_pass: NULL_HANDLE,
            pipeline_layout: NULL_HANDLE,
            pipeline: NULL_HANDLE,
            framebuffers: Seq::empty(),
            command_pool: NULL_HANDLE,
            command_buffers: Seq::empty(),
            image_available_semaphores: Seq::empty(),
            render_finished_semaphores: Seq::empty(),
            in_flight_fences: Seq::empty(),
            images_in_flight: Seq::empty(),
        }
    }

    /// Whether nothing that depends on the swapchain's images is held.
    pub open spec fn dependents_released(self) -> bool {
        &&& self.command_buffers.len() == 0
        &&& self.framebuffers.len() == 0
        &&& self.pipeline == NULL_HANDLE
        &&& self.pipeline_layout == NULL_HANDLE
        &&& self.render_pass == NULL_HANDLE
        &&& self.swapchain_image_views.len() == 0
    }

    /// Whether the objects made for the swapchain's images are one per
    /// image, and there is at least one image.
    pub open spec fn images_consistent(self) -> bool {
        &&& self.swapchain_images.len() > 0
        &&& self.swapchain_image_views.len() == self.swapchain_images.len()
        &&& self.framebuffers.len() == self.swapchain_images.len()
        &&& self.command_buffers.len() == self.swapchain_images.len()
        &&& self.images_in_flight.len() == self.swapchain_images.len()
    }

    /// The synchronisation set of frame slot `frame`, where the record
    /// holds it.
    pub open spec fn frame_slot(self, frame: int) -> Option<FrameSlot> {
        if 0 <= frame < MAX_FRAMES_IN_FLIGHT && frame < self.image_available_semaphores.len()
            && frame < self.render_finished_semaphores.len() && frame
            < self.in_flight_fences.len() {
            Some(
                FrameSlot {
                    image_available: self.image_available_semaphores[frame],
                    render_finished: self.render_finished_semaphores[frame],
                    in_flight: self.in_flight_fences[frame],
                },
            )
        } else {
            None
        }
    }

    /// Whether each of the `frames` frame slots has its semaphores and its
    /// fence.
    pub open spec fn slots_complete(self, frames: int) -> bool {
        &&& self.image_available_semaphores.len() == frames
        &&& self.render_finished_semaphores.len() == frames
        &&& self.in_flight_fences.len() == frames
    }
}

impl AppData {
    /// The synchronisation set of frame slot `frame`, where the record
    /// holds it.
    pub fn frame_slot(&self, frame: usize) -> (slot: Option<FrameSlot>)
        ensures
            slot == self@.frame_slot(frame as int),
    {
        if frame < MAX_FRAMES_IN_FLIGHT && frame < self.image_available_semaphores.len() && frame
            < self.render_finished_semaphores.len() && frame < self.in_flight_fences.len() {
            Some(
                FrameSlot {
                    image_available: self.image_available_semaphores[frame],
                    render_finished: self.render_finished_semaphores[frame],
                    in_flight: self.in_flight_fences[frame],
                },
            )
        } else {
            None
        }
    }
}

impl Default for AppData {
    fn default() -> (data: AppData)
        ensures
            data@ == AppDataView::empty(),
    {
        AppData {
            messenger: NULL_HANDLE,
            physical_device: NULL_HANDLE,
            graphics_queue: NULL_HANDLE,
            surface: NULL_HANDLE,
            present_queue: NULL_HANDLE,
            swapchain_format: 0,
            swapchain_extent: Extent2D { width: 0, height: 0 },
            swapchain: NULL_HANDLE,
            swapchain_images: Vec::new(),
            swapchain_image_views: Vec::new(),
            render_pass: NULL_HANDLE,
            pipeline_layout: NULL_HANDLE,
            pipeline: NULL_HANDLE,
            framebuffers: Vec::new(),
            command_pool: NULL_HANDLE,
            command_buffers: Vec::new(),
            image_available_semaphores: Vec::new(),
            render_finished_semaphores: Vec::new(),
            in_flight_fences: Vec::new(),
            images_in_flight: Vec::new(),
        }
    }
}

} // verus!
