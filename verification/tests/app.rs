use vk_triangle::app::{App, Resume, Stage, Step};
use vk_triangle::command::{
    Command, ObjectKind, Reply, SurfaceReport, ERROR_OUT_OF_DATE, NO_TIMEOUT,
    PIPELINE_STAGE_COLOR_ATTACHMENT_OUTPUT,
};
use vk_triangle::data::AppData;
use vk_triangle::device::{QueueFamily, QUEUE_GRAPHICS};
use vk_triangle::error::Error;
use vk_triangle::surface::{
    Extent2D, SurfaceCapabilities, SurfaceFormat, SwapchainSupport, PRESENT_MODE_FIFO,
};
use vk_triangle::swapchain::{Build, BuildStep};
use vk_triangle::MAX_FRAMES_IN_FLIGHT;

const ERROR_DEVICE_LOST: i32 = -4;

/// Stands in for the device: hands out fresh handles, acquires the images in
/// turn, and keeps a list of what it was asked to do. Replies that a test
/// wants to force are taken from `acquire` and `present` first.
struct Device {
    next_handle: u64,
    images: usize,
    acquired: u32,
    log: Vec<Command>,
    acquire: Vec<Reply>,
    present: Vec<Reply>,
    submit: Vec<Reply>,
}

impl Device {
    fn new(images: usize) -> Device {
        Device {
            next_handle: 1000,
            images,
            acquired: 0,
            log: vec![],
            acquire: vec![],
            present: vec![],
            submit: vec![],
        }
    }

    fn handles(&mut self, n: usize) -> Vec<u64> {
        (0..n)
            .map(|_| {
                self.next_handle += 1;
                self.next_handle
            })
            .collect()
    }

    fn answer(&mut self, command: &Command) -> Reply {
        match command {
            Command::QuerySurface { .. } => Reply::Surface(SurfaceReport {
                queue_families: vec![QueueFamily {
                    flags: QUEUE_GRAPHICS,
                    present_support: Ok(true),
                }],
                support: Ok(SwapchainSupport {
                    capabilities: SurfaceCapabilities {
                        min_image_count: 2,
                        max_image_count: 0,
                        current_extent: Extent2D { width: 800, height: 600 },
                        min_image_extent: Extent2D { width: 1, height: 1 },
                        max_image_extent: Extent2D { width: 4096, height: 4096 },
                        supported_transforms: 1,
                        current_transform: 1,
                    },
                    formats: vec![SurfaceFormat { format: 50, color_space: 0 }],
                    present_modes: vec![PRESENT_MODE_FIFO],
                }),
                window: Extent2D { width: 1024, height: 768 },
            }),
            Command::CreateSwapchain { .. }
            | Command::CreateRenderPass { .. }
            | Command::CreateCommandPool => Reply::Handle(self.handles(1)[0]),
            Command::GetSwapchainImages { .. } => Reply::Handles(self.handles(self.images)),
            Command::CreateImageViews { infos } => Reply::Handles(self.handles(infos.len())),
            Command::CreateFramebuffers { views, .. } => Reply::Handles(self.handles(views.len())),
            Command::CreateCommandBuffers { framebuffers, .. } => {
                Reply::Handles(self.handles(framebuffers.len()))
            }
            Command::CreatePipeline { .. } => {
                let made = self.handles(2);
                Reply::Pipeline { layout: made[0], pipeline: made[1] }
            }
            Command::CreateSyncObjects { frames } => Reply::SyncObjects {
                image_available: self.handles(*frames),
                render_finished: self.handles(*frames),
                in_flight: self.handles(*frames),
            },
            Command::AcquireNextImage { .. } => {
                if self.acquire.is_empty() {
                    let image_index = self.acquired % self.images as u32;
                    self.acquired += 1;
                    Reply::Acquired { image_index }
                } else {
                    self.acquire.remove(0)
                }
            }
            Command::QueuePresent { .. } => {
                if self.present.is_empty() {
                    Reply::Presented { suboptimal: false }
                } else {
                    self.present.remove(0)
                }
            }
            Command::QueueSubmit { .. } => {
                if self.submit.is_empty() {
                    Reply::Done
                } else {
                    self.submit.remove(0)
                }
            }
            _ => Reply::Done,
        }
    }

    fn perform(&mut self, commands: Vec<Command>) -> Reply {
        let mut last = Reply::Done;
        for command in commands {
            last = self.answer(&command);
            self.log.push(command);
        }
        last
    }

    fn count(&self, wanted: fn(&Command) -> bool) -> usize {
        self.log.iter().filter(|c| wanted(c)).count()
    }
}

fn run(app: &mut App, device: &mut Device, first: Step) -> Result<(), Error> {
    let mut step = first;
    loop {
        match step {
            Step::Perform(commands) => {
                let reply = device.perform(commands);
                step = app.advance(reply);
            }
            Step::Finished => return Ok(()),
            Step::Failed(error) => return Err(error),
        }
    }
}

fn started(images: usize) -> (App, Device) {
    let mut device = Device::new(images);
    let data = AppData {
        messenger: 1,
        physical_device: 2,
        graphics_queue: 3,
        surface: 4,
        present_queue: 5,
        ..AppData::default()
    };
    let (mut app, commands) = App::create(data);
    assert_eq!(run(&mut app, &mut device, Step::Perform(commands)), Ok(()));
    device.log.clear();
    (app, device)
}

fn frame(app: &mut App, device: &mut Device) -> Result<(), Error> {
    let step = app.render();
    run(app, device, step)
}

fn is_submit(command: &Command) -> bool {
    matches!(command, Command::QueueSubmit { .. })
}

fn is_device_wait(command: &Command) -> bool {
    matches!(command, Command::WaitDeviceIdle)
}

fn is_create_swapchain(command: &Command) -> bool {
    matches!(command, Command::CreateSwapchain { .. })
}

fn is_present(command: &Command) -> bool {
    matches!(command, Command::QueuePresent { .. })
}

#[test]
fn create_starts_the_first_build() {
    let data = AppData { physical_device: 2, surface: 4, ..AppData::default() };
    let (app, commands) = App::create(data.clone());
    assert_eq!(commands, vec![Command::QuerySurface { physical_device: 2, surface: 4 }]);
    assert_eq!(app.data, data);
    assert_eq!(app.frame, 0);
    assert!(!app.resized);
    assert_eq!(
        app.stage,
        Stage::Building {
            build: Build { step: BuildStep::Surface, old_swapchain: 0 },
            resume: Resume::Finish
        }
    );
}

#[test]
fn create_builds_everything_once() {
    let (app, _) = started(3);
    assert_eq!(app.stage, Stage::Ready);
    assert_eq!(app.frame, 0);
    assert_eq!(app.data.swapchain_images.len(), 3);
    assert_eq!(app.data.swapchain_image_views.len(), 3);
    assert_eq!(app.data.framebuffers.len(), 3);
    assert_eq!(app.data.command_buffers.len(), 3);
    assert_eq!(app.data.images_in_flight, vec![0, 0, 0]);
    assert_eq!(app.data.image_available_semaphores.len(), MAX_FRAMES_IN_FLIGHT);
    assert_eq!(app.data.render_finished_semaphores.len(), MAX_FRAMES_IN_FLIGHT);
    assert_eq!(app.data.in_flight_fences.len(), MAX_FRAMES_IN_FLIGHT);
    assert_ne!(app.data.swapchain, 0);
    assert_ne!(app.data.command_pool, 0);
}

#[test]
fn frame_runs_acquire_reset_submit_present_wait() {
    let (mut app, mut device) = started(3);
    let data = app.data.clone();
    assert_eq!(frame(&mut app, &mut device), Ok(()));
    assert_eq!(
        device.log,
        vec![
            Command::AcquireNextImage {
                swapchain: data.swapchain,
                timeout: u64::MAX,
                semaphore: data.image_available_semaphores[0],
                fence: 0,
            },
            Command::ResetFences { fence: data.in_flight_fences[0] },
            Command::QueueSubmit {
                queue: 3,
                wait_semaphore: data.image_available_semaphores[0],
                wait_stage: 0x400,
                command_buffer: data.command_buffers[0],
                signal_semaphore: data.render_finished_semaphores[0],
                fence: data.in_flight_fences[0],
            },
            Command::QueuePresent {
                queue: 5,
                wait_semaphore: data.render_finished_semaphores[0],
                swapchain: data.swapchain,
                image_index: 0,
            },
            Command::WaitQueueIdle { queue: 5 },
        ]
    );
    assert_eq!(NO_TIMEOUT, u64::MAX);
    assert_eq!(PIPELINE_STAGE_COLOR_ATTACHMENT_OUTPUT, 0x400);
    assert_eq!(app.frame, 1);
    assert_eq!(app.stage, Stage::Ready);
    assert_eq!(app.data.images_in_flight, vec![data.in_flight_fences[0], 0, 0]);
}

#[test]
fn second_frame_uses_the_second_slot() {
    let (mut app, mut device) = started(3);
    let data = app.data.clone();
    frame(&mut app, &mut device).unwrap();
    device.log.clear();
    frame(&mut app, &mut device).unwrap();
    assert_eq!(
        device.log[0],
        Command::AcquireNextImage {
            swapchain: data.swapchain,
            timeout: u64::MAX,
            semaphore: data.image_available_semaphores[1],
            fence: 0,
        }
    );
    assert_eq!(
        device.log[2],
        Command::QueueSubmit {
            queue: 3,
            wait_semaphore: data.image_available_semaphores[1],
            wait_stage: 0x400,
            command_buffer: data.command_buffers[1],
            signal_semaphore: data.render_finished_semaphores[1],
            fence: data.in_flight_fences[1],
        }
    );
    assert_eq!(
        app.data.images_in_flight,
        vec![data.in_flight_fences[0], data.in_flight_fences[1], 0]
    );
}

#[test]
fn frame_index_alternates() {
    let (mut app, mut device) = started(3);
    let mut seen = vec![app.frame];
    for _ in 0..7 {
        frame(&mut app, &mut device).unwrap();
        seen.push(app.frame);
    }
    assert_eq!(seen, vec![0, 1, 0, 1, 0, 1, 0, 1]);
}

#[test]
fn image_still_in_flight_is_waited_for() {
    let (mut app, mut device) = started(3);
    let fences = app.data.in_flight_fences.clone();
    for _ in 0..3 {
        frame(&mut app, &mut device).unwrap();
    }
    assert_eq!(app.data.images_in_flight, vec![fences[0], fences[1], fences[0]]);
    device.log.clear();
    frame(&mut app, &mut device).unwrap();
    assert_eq!(
        device.log[..3],
        [
            Command::AcquireNextImage {
                swapchain: app.data.swapchain,
                timeout: u64::MAX,
                semaphore: app.data.image_available_semaphores[1],
                fence: 0,
            },
            Command::WaitForFences { fence: fences[0], timeout: u64::MAX },
            Command::ResetFences { fence: fences[1] },
        ]
    );
    assert_eq!(app.data.images_in_flight, vec![fences[1], fences[1], fences[0]]);
}

#[test]
fn image_is_marked_only_after_the_wait() {
    let (mut app, _) = started(2);
    let fences = app.data.in_flight_fences.clone();
    app.data.images_in_flight = vec![0, 77];
    app.render();
    let step = app.advance(Reply::Acquired { image_index: 1 });
    assert_eq!(step, Step::Perform(vec![Command::WaitForFences { fence: 77, timeout: u64::MAX }]));
    assert_eq!(app.stage, Stage::WaitingForImage { image: 1 });
    assert_eq!(app.data.images_in_flight, vec![0, 77]);
    let step = app.advance(Reply::Done);
    assert_eq!(step, Step::Perform(vec![Command::ResetFences { fence: fences[0] }]));
    assert_eq!(app.stage, Stage::Resetting { image: 1 });
    assert_eq!(app.data.images_in_flight, vec![0, fences[0]]);
}

#[test]
fn out_of_date_on_acquire_rebuilds_and_renders_nothing() {
    let (mut app, mut device) = started(3);
    frame(&mut app, &mut device).unwrap();
    let before = app.data.clone();
    device.log.clear();
    device.acquire.push(Reply::Failed(ERROR_OUT_OF_DATE));
    device.images = 4;
    assert_eq!(frame(&mut app, &mut device), Ok(()));
    assert_eq!(device.count(is_device_wait), 1);
    assert_eq!(device.count(is_create_swapchain), 1);
    assert_eq!(device.count(is_submit), 0);
    assert_eq!(device.count(is_present), 0);
    assert_eq!(app.frame, 1);
    assert_eq!(app.stage, Stage::Ready);
    assert_ne!(app.data.swapchain, before.swapchain);
    assert_eq!(app.data.swapchain_images.len(), 4);
    assert_eq!(app.data.images_in_flight, vec![0, 0, 0, 0]);
    assert_eq!(app.data.in_flight_fences, before.in_flight_fences);
    assert!(device.log.contains(&Command::Destroy {
        kind: ObjectKind::Swapchain,
        handle: before.swapchain
    }));

    device.log.clear();
    assert_eq!(frame(&mut app, &mut device), Ok(()));
    assert_eq!(device.count(is_device_wait), 0);
    assert_eq!(device.count(is_submit), 1);
    assert_eq!(device.count(is_present), 1);
    assert_eq!(app.frame, 0);
    match &device.log[0] {
        Command::AcquireNextImage { swapchain, semaphore, .. } => {
            assert_eq!(*swapchain, app.data.swapchain);
            assert_eq!(*semaphore, app.data.image_available_semaphores[1]);
        }
        other => panic!("{:?}", other),
    }
    match device.log.iter().find(|c| is_submit(c)) {
        Some(Command::QueueSubmit { command_buffer, .. }) => {
            assert!(app.data.command_buffers.contains(command_buffer));
            assert!(!before.command_buffers.contains(command_buffer));
        }
        other => panic!("{:?}", other),
    }
}

#[test]
fn out_of_date_on_acquire_first_step() {
    let (mut app, _) = started(2);
    let data = app.data.clone();
    app.render();
    let step = app.advance(Reply::Failed(-1000001004));
    assert_eq!(step, Step::Perform(vec![Command::WaitDeviceIdle]));
    assert_eq!(
        app.stage,
        Stage::Building {
            build: Build { step: BuildStep::DeviceIdle, old_swapchain: data.swapchain },
            resume: Resume::Finish
        }
    );
    assert_eq!(app.data, data);
    assert_eq!(app.frame, 0);
}

#[test]
fn suboptimal_presentation_rebuilds_after_presenting() {
    let (mut app, mut device) = started(3);
    let old = app.data.swapchain;
    device.present.push(Reply::Presented { suboptimal: true });
    assert_eq!(frame(&mut app, &mut device), Ok(()));
    assert_eq!(device.count(is_submit), 1);
    assert_eq!(device.count(is_present), 1);
    assert_eq!(device.count(is_device_wait), 1);
    let present_at = device.log.iter().position(is_present).unwrap();
    let wait_at = device.log.iter().position(is_device_wait).unwrap();
    assert_eq!(wait_at, present_at + 1);
    assert_eq!(device.log.last(), Some(&Command::WaitQueueIdle { queue: 5 }));
    assert_ne!(app.data.swapchain, old);
    assert_eq!(app.frame, 1);
    assert_eq!(app.data.images_in_flight, vec![0, 0, 0]);
}

#[test]
fn out_of_date_presentation_rebuilds_after_presenting() {
    let (mut app, mut device) = started(3);
    device.present.push(Reply::Failed(ERROR_OUT_OF_DATE));
    assert_eq!(frame(&mut app, &mut device), Ok(()));
    assert_eq!(device.count(is_device_wait), 1);
    assert_eq!(device.count(is_create_swapchain), 1);
    assert_eq!(app.frame, 1);
    assert_eq!(app.stage, Stage::Ready);
}

#[test]
fn resize_flag_rebuilds_after_presenting_and_is_cleared() {
    let (mut app, mut device) = started(3);
    app.resized = true;
    assert_eq!(frame(&mut app, &mut device), Ok(()));
    assert_eq!(device.count(is_device_wait), 1);
    assert!(!app.resized);
    assert_eq!(app.frame, 1);
    device.log.clear();
    assert_eq!(frame(&mut app, &mut device), Ok(()));
    assert_eq!(device.count(is_device_wait), 0);
}

#[test]
fn resize_flag_outweighs_a_failed_presentation() {
    let (mut app, mut device) = started(3);
    app.resized = true;
    device.present.push(Reply::Failed(ERROR_DEVICE_LOST));
    assert_eq!(frame(&mut app, &mut device), Ok(()));
    assert_eq!(device.count(is_device_wait), 1);
    assert!(!app.resized);
}

#[test]
fn other_failures_end_the_frame() {
    let (mut app, mut device) = started(3);
    device.acquire.push(Reply::Failed(ERROR_DEVICE_LOST));
    assert_eq!(frame(&mut app, &mut device), Err(Error::Vulkan(-4)));
    assert_eq!(device.count(is_submit), 0);
    assert_eq!(device.count(is_device_wait), 0);
    assert_eq!(app.frame, 0);
    assert_eq!(app.stage, Stage::Ready);

    device.submit.push(Reply::Failed(-2));
    assert_eq!(frame(&mut app, &mut device), Err(Error::Vulkan(-2)));
    assert_eq!(device.count(is_present), 0);
    assert_eq!(app.frame, 0);

    device.present.push(Reply::Failed(ERROR_DEVICE_LOST));
    assert_eq!(frame(&mut app, &mut device), Err(Error::Vulkan(-4)));
    assert_eq!(device.count(is_device_wait), 0);
    assert_eq!(app.frame, 0);
    assert_eq!(app.stage, Stage::Ready);
}

#[test]
fn acquired_image_outside_the_swapchain_is_turned_down() {
    let (mut app, mut device) = started(3);
    device.acquire.push(Reply::Acquired { image_index: 3 });
    assert_eq!(frame(&mut app, &mut device), Err(Error::ImageOutOfRange));
    assert_eq!(device.count(is_submit), 0);
    assert_eq!(app.stage, Stage::Ready);
}

#[test]
fn reply_that_does_not_fit_ends_the_frame() {
    let (mut app, _) = started(3);
    app.render();
    assert_eq!(app.advance(Reply::Done), Step::Failed(Error::UnexpectedReply));
    assert_eq!(app.stage, Stage::Ready);
    assert_eq!(app.advance(Reply::Done), Step::Failed(Error::UnexpectedReply));
}

#[test]
fn render_needs_a_renderer_between_frames() {
    let (mut app, _) = App::create(AppData::default());
    assert_eq!(app.render(), Step::Failed(Error::NotReady));
    let (mut app, _) = started(2);
    assert!(matches!(app.render(), Step::Perform(_)));
    assert_eq!(app.render(), Step::Failed(Error::NotReady));
    assert_eq!(app.stage, Stage::Acquiring);
}

#[test]
fn failed_build_leaves_the_renderer_stale_and_can_be_tried_again() {
    let (mut app, mut device) = started(3);
    device.images = 0;
    let step = app.recreate();
    assert_eq!(run(&mut app, &mut device, step), Err(Error::ImageCountMismatch));
    assert_eq!(app.stage, Stage::Stale);
    assert_eq!(app.render(), Step::Failed(Error::NotReady));
    assert_eq!(app.data.framebuffers, Vec::<u64>::new());

    device.log.clear();
    device.images = 2;
    let step = app.recreate();
    assert_eq!(run(&mut app, &mut device, step), Ok(()));
    assert_eq!(app.stage, Stage::Ready);
    assert_eq!(app.data.images_in_flight, vec![0, 0]);
    assert_eq!(
        device.log[..2],
        [
            Command::WaitDeviceIdle,
            Command::QuerySurface { physical_device: 2, surface: 4 }
        ]
    );
    assert_eq!(frame(&mut app, &mut device), Ok(()));
}

#[test]
fn recreate_is_refused_inside_a_frame() {
    let (mut app, _) = started(2);
    app.render();
    assert_eq!(app.recreate(), Step::Failed(Error::NotReady));
    assert_eq!(app.stage, Stage::Acquiring);
}

#[test]
fn destroy_releases_everything_in_order() {
    let (mut app, _) = started(2);
    let data = app.data.clone();
    let commands = app.destroy(true);
    let destroy = |kind, handle| Command::Destroy { kind, handle };
    assert_eq!(
        commands,
        vec![
            Command::FreeCommandBuffers { pool: data.command_pool, buffers: data.command_buffers.clone() },
            destroy(ObjectKind::Framebuffer, data.framebuffers[0]),
            destroy(ObjectKind::Framebuffer, data.framebuffers[1]),
            destroy(ObjectKind::Pipeline, data.pipeline),
            destroy(ObjectKind::PipelineLayout, data.pipeline_layout),
            destroy(ObjectKind::RenderPass, data.render_pass),
            destroy(ObjectKind::ImageView, data.swapchain_image_views[0]),
            destroy(ObjectKind::ImageView, data.swapchain_image_views[1]),
            destroy(ObjectKind::Swapchain, data.swapchain),
            Command::WaitDeviceIdle,
            destroy(ObjectKind::Fence, data.in_flight_fences[0]),
            destroy(ObjectKind::Fence, data.in_flight_fences[1]),
            destroy(ObjectKind::Semaphore, data.render_finished_semaphores[0]),
            destroy(ObjectKind::Semaphore, data.render_finished_semaphores[1]),
            destroy(ObjectKind::Semaphore, data.image_available_semaphores[0]),
            destroy(ObjectKind::Semaphore, data.image_available_semaphores[1]),
            destroy(ObjectKind::CommandPool, data.command_pool),
            Command::DestroyDevice,
            destroy(ObjectKind::DebugMessenger, 1),
            destroy(ObjectKind::Surface, 4),
            Command::DestroyInstance,
        ]
    );
    assert_eq!(app.stage, Stage::Destroyed);
    assert_eq!(
        app.data,
        AppData {
            physical_device: 2,
            graphics_queue: 3,
            present_queue: 5,
            swapchain_format: data.swapchain_format,
            swapchain_extent: data.swapchain_extent,
            ..AppData::default()
        }
    );
}

#[test]
fn destroy_without_validation_leaves_the_messenger() {
    let (mut app, _) = started(2);
    let commands = app.destroy(false);
    assert!(commands.iter().all(|c| !matches!(
        c,
        Command::Destroy { kind: ObjectKind::DebugMessenger, .. }
    )));
    assert_eq!(commands.len(), 20);
    assert_eq!(app.data.messenger, 1);
}

#[test]
fn destroy_twice_lists_nothing_the_second_time() {
    let (mut app, _) = started(2);
    app.destroy(true);
    let after = app.data.clone();
    assert_eq!(app.destroy(true), vec![]);
    assert_eq!(app.data, after);
    assert_eq!(app.stage, Stage::Destroyed);
    assert_eq!(app.render(), Step::Failed(Error::NotReady));
    assert_eq!(app.advance(Reply::Done), Step::Failed(Error::UnexpectedReply));
}
