use vk_triangle::data::{AppData, FrameSlot};
use vk_triangle::surface::Extent2D;
use vk_triangle::MAX_FRAMES_IN_FLIGHT;

#[test]
fn default_record_holds_nothing() {
    let data = AppData::default();
    assert_eq!(
        data,
        AppData {
            messenger: 0,
            physical_device: 0,
            graphics_queue: 0,
            surface: 0,
            present_queue: 0,
            swapchain_format: 0,
            swapchain_extent: Extent2D { width: 0, height: 0 },
            swapchain: 0,
            swapchain_images: vec![],
            swapchain_image_views: vec![],
            render_pass: 0,
            pipeline_layout: 0,
            pipeline: 0,
            framebuffers: vec![],
            command_pool: 0,
            command_buffers: vec![],
            image_available_semaphores: vec![],
            render_finished_semaphores: vec![],
            in_flight_fences: vec![],
            images_in_flight: vec![],
        }
    );
}

#[test]
fn frame_slot_of_each_index() {
    assert_eq!(MAX_FRAMES_IN_FLIGHT, 2);
    let data = AppData {
        image_available_semaphores: vec![61, 62, 63],
        render_finished_semaphores: vec![71, 72, 73],
        in_flight_fences: vec![81, 82, 83],
        ..AppData::default()
    };
    assert_eq!(
        data.frame_slot(0),
        Some(FrameSlot { image_available: 61, render_finished: 71, in_flight: 81 })
    );
    assert_eq!(
        data.frame_slot(1),
        Some(FrameSlot { image_available: 62, render_finished: 72, in_flight: 82 })
    );
    assert_eq!(data.frame_slot(2), None);
    assert_eq!(data.frame_slot(usize::MAX), None);
}

#[test]
fn frame_slot_needs_all_three_objects() {
    let data = AppData {
        image_available_semaphores: vec![61, 62],
        render_finished_semaphores: vec![71],
        in_flight_fences: vec![81, 82],
        ..AppData::default()
    };
    assert!(data.frame_slot(0).is_some());
    assert_eq!(data.frame_slot(1), None);
    assert_eq!(AppData::default().frame_slot(0), None);
}
