//! The render loop driver: the per-frame protocol of acquiring an image,
//! waiting for it, submitting, presenting, and rebuilding the swapchain
//! when the surface has changed.
//!
//! The driver never touches the device. Each step hands out a batch of
//! commands; the caller performs them in order and comes back with the
//! reply to the last one. All commands of a batch but the last release
//! objects and have nothing to report.

use crate::command::{
    command_views, Command, CommandView, ObjectKind, Reply, ReplyView, ERROR_OUT_OF_DATE,
    NO_TIMEOUT, NULL_HANDLE, PIPELINE_STAGE_COLOR_ATTACHMENT_OUTPUT,
};
use crate::data::{AppData, AppDataView, FrameSlot};
use crate::error::Error;
use crate::swapchain::{
    batch_shaped, begin_create, begin_recreate, build_consistent, build_next, destroy_each,
    destroy_swapchain, destroy_unless_null, first_build, lemma_build_starts_consistent,
    lemma_build_step_consistent, lemma_old_swapchain_outlives_replacement, push_destroy_each,
    push_destroy_unless_null, rebuild, recreate_swapchain, single,
    swapchain_teardown_commands, swapchain_torn_down, Build, Progress, ProgressView,
};
use crate::MAX_FRAMES_IN_FLIGHT;
use vstd::prelude::*;

verus! {

/// What follows a build that was begun inside a frame.
#[derive(Clone, Copy, Debug, PartialEq, Eq, Structural)]
pub enum Resume {
    /// The protocol ends there, and the frame index stays as it is.
    Finish,
    /// The frame goes on: the presentation queue is waited for and the
    /// frame index advances.
    Drain,
}

/// Where the driver stands.
#[derive(Clone, Copy, Debug, PartialEq, Eq, Structural)]
pub enum Stage {
    /// The swapchain and its dependents are being built or rebuilt.
    Building { build: Build, resume: Resume },
    /// Between frames.
    Ready,
    /// An image is being acquired.
    Acquiring,
    /// The fence of the frame that last used the acquired image is being
    /// waited for.
    WaitingForImage { image: u32 },
    /// The frame slot's fence is being reset.
    Resetting { image: u32 },
    /// The command buffer is being submitted.
    Submitting { image: u32 },
    /// The image is being presented.
    Presenting { image: u32 },
    /// The presentation queue is being waited for.
    Draining,
    /// A build has failed; only a rebuild or the teardown can follow.
    Stale,
    /// Everything has been released.
    Destroyed,
}

/// The renderer's state: its record of objects, the current frame slot,
/// whether the window was resized since the last rebuild, and where the
/// protocol stands.
#[derive(Debug, PartialEq, Eq)]
pub struct App {
    pub data: AppData,
    pub frame: usize,
    pub resized: bool,
    pub stage: Stage,
}

/// The mathematical content of an [`App`].
pub struct AppView {
    pub data: AppDataView,
    pub frame: usize,
    pub resized: bool,
    pub stage: Stage,
}

impl View for App {
    type V = AppView;

    open spec fn view(&self) -> AppView {
        AppView { data: self.data@, frame: self.frame, resized: self.resized, stage: self.stage }
    }
}

/// What a step of the driver asks of the caller.
#[derive(Debug, PartialEq, Eq)]
pub enum Step {
    /// Perform these commands in order and come back with the reply to the
    /// last of them.
    Perform(Vec<Command>),
    /// The protocol that was running is over; the renderer is between
    /// frames.
    Finished,
    /// The protocol that was running has failed and is over.
    Failed(Error),
}

/// The mathematical content of a [`Step`].
pub enum StepView {
    Perform(Seq<CommandView>),
    Finished,
    Failed(Error),
}

impl View for Step {
    type V = StepView;

    open spec fn view(&self) -> StepView {
        match *self {
            Step::Perform(commands) => StepView::Perform(command_views(commands@)),
            Step::Finished => StepView::Finished,
            Step::Failed(error) => StepView::Failed(error),
        }
    }
}

impl AppView {
    /// The synchronisation set of the current frame slot, where the record
    /// holds it.
    pub open spec fn slot(self) -> Option<FrameSlot> {
        self.data.frame_slot(self.frame as int)
    }

    /// Whether the current frame slot exists in the record.
    pub open spec fn slot_ready(self) -> bool {
        self.slot().is_some()
    }

    /// Whether the record knows the image with this index.
    pub open spec fn image_ready(self, image: u32) -> bool {
        &&& image < self.data.images_in_flight.len()
        &&& image < self.data.command_buffers.len()
    }

    /// The frame is given up: the driver is between frames again, with the
    /// frame index where it was.
    pub open spec fn abort(self, error: Error) -> (AppView, StepView) {
        (AppView { stage: Stage::Ready, ..self }, StepView::Failed(error))
    }

    /// A rebuild of the swapchain begins.
    pub open spec fn start_rebuild(self, resume: Resume) -> (AppView, StepView) {
        let (build, commands) = rebuild(self.data);
        (AppView { stage: Stage::Building { build, resume }, ..self }, StepView::Perform(commands))
    }

    /// The acquired image is recorded as in use by the current frame slot,
    /// and the slot's fence is reset, which is the last thing before the
    /// submission.
    pub open spec fn mark_and_reset(self, image: u32) -> (AppView, StepView) {
        if !self.slot_ready() || !self.image_ready(image) {
            self.abort(Error::NotReady)
        } else {
            let fence = self.slot()->Some_0.in_flight;
            (
                AppView {
                    data: AppDataView {
                        images_in_flight: self.data.images_in_flight.update(image as int, fence),
                        ..self.data
                    },
                    stage: Stage::Resetting { image },
                    ..self
                },
                StepView::Perform(seq![CommandView::ResetFences { fence }]),
            )
        }
    }

    /// The presentation queue is waited for, after which the frame is
    /// over.
    pub open spec fn drain(self) -> (AppView, StepView) {
        (
            AppView { stage: Stage::Draining, ..self },
            StepView::Perform(seq![CommandView::WaitQueueIdle { queue: self.data.present_queue }]),
        )
    }

    /// A frame begins: the next image is acquired, without a deadline,
    /// signalling the current slot's "image available" semaphore.
    pub open spec fn begin_frame(self) -> (AppView, StepView) {
        if self.stage != Stage::Ready || !self.slot_ready() {
            (self, StepView::Failed(Error::NotReady))
        } else {
            (
                AppView { stage: Stage::Acquiring, ..self },
                StepView::Perform(
                    seq![
                        CommandView::AcquireNextImage {
                            swapchain: self.data.swapchain,
                            timeout: NO_TIMEOUT,
                            semaphore: self.slot()->Some_0.image_available,
                            fence: NULL_HANDLE,
                        },
                    ],
                ),
            )
        }
    }

    /// A rebuild is asked for from outside a frame.
    pub open spec fn begin_rebuild(self) -> (AppView, StepView) {
        if self.stage == Stage::Ready || self.stage == Stage::Stale {
            self.start_rebuild(Resume::Finish)
        } else {
            (self, StepView::Failed(Error::NotReady))
        }
    }

    /// One step of the driver: from the state and the reply to the last
    /// command, to the new state and what the caller is to do next.
    pub open spec fn next(self, reply: ReplyView) -> (AppView, StepView) {
        match self.stage {
            Stage::Building { build, resume } => {
                let (data, progress) = build_next(self.data, build, reply);
                let built = AppView { data, ..self };
                match progress {
                    ProgressView::Next { build, commands } => (
                        AppView { stage: Stage::Building { build, resume }, ..built },
                        StepView::Perform(commands),
                    ),
                    ProgressView::Complete => match resume {
                        Resume::Finish => (
                            AppView { stage: Stage::Ready, ..built },
                            StepView::Finished,
                        ),
                        Resume::Drain => built.drain(),
                    },
                    ProgressView::Failed(error) => (
                        AppView { stage: Stage::Stale, ..built },
                        StepView::Failed(error),
                    ),
                }
            },
            Stage::Acquiring => match reply {
                ReplyView::Acquired { image_index } => if !self.slot_ready() {
                    self.abort(Error::NotReady)
                } else if !self.image_ready(image_index) {
                    self.abort(Error::ImageOutOfRange)
                } else {
                    let fence = self.data.images_in_flight[image_index as int];
                    if fence != NULL_HANDLE {
                        (
                            AppView {
                                stage: Stage::WaitingForImage { image: image_index },
                                ..self
                            },
                            StepView::Perform(
                                seq![CommandView::WaitForFences { fence, timeout: NO_TIMEOUT }],
                            ),
                        )
                    } else {
                        self.mark_and_reset(image_index)
                    }
                },
                ReplyView::Failed(code) => if code == ERROR_OUT_OF_DATE {
                    self.start_rebuild(Resume::Finish)
                } else {
                    self.abort(Error::Vulkan(code))
                },
                _ => self.abort(Error::UnexpectedReply),
            },
            Stage::WaitingForImage { image } => match reply {
                ReplyView::Done => self.mark_and_reset(image),
                ReplyView::Failed(code) => self.abort(Error::Vulkan(code)),
                _ => self.abort(Error::UnexpectedReply),
            },
            Stage::Resetting { image } => match reply {
                ReplyView::Done => if !self.slot_ready() || !self.image_ready(image) {
                    self.abort(Error::NotReady)
                } else {
                    (
                        AppView { stage: Stage::Submitting { image }, ..self },
                        StepView::Perform(
                            seq![
                                CommandView::QueueSubmit {
                                    queue: self.data.graphics_queue,
                                    wait_semaphore: self.slot()->Some_0.image_available,
                                    wait_stage: PIPELINE_STAGE_COLOR_ATTACHMENT_OUTPUT,
                                    command_buffer: self.data.command_buffers[image as int],
                                    signal_semaphore: self.slot()->Some_0.render_finished,
                                    fence: self.slot()->Some_0.in_flight,
                                },
                            ],
                        ),
                    )
                },
                ReplyView::Failed(code) => self.abort(Error::Vulkan(code)),
                _ => self.abort(Error::UnexpectedReply),
            },
            Stage::Submitting { image } => match reply {
                ReplyView::Done => if !self.slot_ready() {
                    self.abort(Error::NotReady)
                } else {
                    (
                        AppView { stage: Stage::Presenting { image }, ..self },
                        StepView::Perform(
                            seq![
                                CommandView::QueuePresent {
                                    queue: self.data.present_queue,
                                    wait_semaphore: self.slot()->Some_0.render_finished,
                                    swapchain: self.data.swapchain,
                                    image_index: image,
                                },
                            ],
                        ),
                    )
                },
                ReplyView::Failed(code) => self.abort(Error::Vulkan(code)),
                _ => self.abort(Error::UnexpectedReply),
            },
            Stage::Presenting { image } => match reply {
                ReplyView::Presented { suboptimal } => if self.resized || suboptimal {
                    AppView { resized: false, ..self }.start_rebuild(Resume::Drain)
                } else {
                    self.drain()
                },
                ReplyView::Failed(code) => if self.resized || code == ERROR_OUT_OF_DATE {
                    AppView { resized: false, ..self }.start_rebuild(Resume::Drain)
                } else {
                    self.abort(Error::Vulkan(code))
                },
                _ => self.abort(Error::UnexpectedReply),
            },
            Stage::Draining => match reply {
                ReplyView::Done => if self.frame < MAX_FRAMES_IN_FLIGHT {
                    (
                        AppView {
                            frame: ((self.frame + 1) % MAX_FRAMES_IN_FLIGHT as int) as usize,
                            stage: Stage::Ready,
                            ..self
                        },
                        StepView::Finished,
                    )
                } else {
                    self.abort(Error::NotReady)
                },
                ReplyView::Failed(code) => self.abort(Error::Vulkan(code)),
                _ => self.abort(Error::UnexpectedReply),
            },
            Stage::Ready | Stage::Stale | Stage::Destroyed => (
                self,
                StepView::Failed(Error::UnexpectedReply),
            ),
        }
    }

    /// The commands of the teardown: the swapchain and its dependents; a
    /// wait for the device; the frame slots' fences and semaphores; the
    /// command pool; the device; with `validation`, the debug messenger;
    /// the surface; the instance.
    pub open spec fn teardown_commands(self, validation: bool) -> Seq<CommandView> {
        if self.stage == Stage::Destroyed {
            Seq::empty()
        } else {
            swapchain_teardown_commands(self.data).push(CommandView::WaitDeviceIdle)
                + destroy_each(ObjectKind::Fence, self.data.in_flight_fences) + destroy_each(
                ObjectKind::Semaphore,
                self.data.render_finished_semaphores,
            ) + destroy_each(ObjectKind::Semaphore, self.data.image_available_semaphores)
                + destroy_unless_null(ObjectKind::CommandPool, self.data.command_pool).push(
                CommandView::DestroyDevice,
            ) + (if validation {
                destroy_unless_null(ObjectKind::DebugMessenger, self.data.messenger)
            } else {
                Seq::empty()
            }) + destroy_unless_null(ObjectKind::Surface, self.data.surface).push(
                CommandView::DestroyInstance,
            )
        }
    }

    /// The state after the teardown: nothing is held any more.
    pub open spec fn torn_down(self, validation: bool) -> AppView {
        if self.stage == Stage::Destroyed {
            self
        } else {
            AppView {
                data: AppDataView {
                    in_flight_fences: Seq::empty(),
                    render_finished_semaphores: Seq::empty(),
                    image_available_semaphores: Seq::empty(),
                    images_in_flight: Seq::empty(),
                    command_pool: NULL_HANDLE,
                    messenger: if validation {
                        NULL_HANDLE
                    } else {
                        self.data.messenger
                    },
                    surface: NULL_HANDLE,
                    ..swapchain_torn_down(self.data)
                },
                stage: Stage::Destroyed,
                ..self
            }
        }
    }
}

impl App {
    /// Starts the renderer on a record that holds the surface, the
    /// physical device and the queues: the first build begins.
    pub fn create(data: AppData) -> (started: (App, Vec<Command>))
        ensures
            started.0@ == AppView::created(data@),
            command_views(started.1@) == first_build(data@).1,
    {
        let (build, commands) = begin_create(&data);
        (
            App {
                data,
                frame: 0,
                resized: false,
                stage: Stage::Building { build, resume: Resume::Finish },
            },
            commands,
        )
    }

    fn image_ready(&self, image: u32) -> (ready: bool)
        ensures
            ready == self@.image_ready(image),
    {
        (image as usize) < self.data.images_in_flight.len() && (image as usize)
            < self.data.command_buffers.len()
    }

    fn abort(&mut self, error: Error) -> (step: Step)
        ensures
            (final(self)@, step@) == old(self)@.abort(error),
    {
        self.stage = Stage::Ready;
        Step::Failed(error)
    }

    fn start_rebuild(&mut self, resume: Resume) -> (step: Step)
        ensures
            (final(self)@, step@) == old(self)@.start_rebuild(resume),
    {
        let (build, commands) = begin_recreate(&self.data);
        self.stage = Stage::Building { build, resume };
        Step::Perform(commands)
    }

    fn mark_and_reset(&mut self, image: u32) -> (step: Step)
        ensures
            (final(self)@, step@) == old(self)@.mark_and_reset(image),
    {
        let slot = match self.data.frame_slot(self.frame) {
            Some(slot) => slot,
            None => {
                return self.abort(Error::NotReady);
            },
        };
        if !self.image_ready(image) {
            return self.abort(Error::NotReady);
        }
        self.data.images_in_flight.set(image as usize, slot.in_flight);
        self.stage = Stage::Resetting { image };
        Step::Perform(single(Command::ResetFences { fence: slot.in_flight }))
    }

    fn drain(&mut self) -> (step: Step)
        ensures
            (final(self)@, step@) == old(self)@.drain(),
    {
        self.stage = Stage::Draining;
        Step::Perform(single(Command::WaitQueueIdle { queue: self.data.present_queue }))
    }

    /// Begins a frame. Between frames, and only then, the answer is the
    /// command that acquires the next image.
    pub fn render(&mut self) -> (step: Step)
        ensures
            (final(self)@, step@) == old(self)@.begin_frame(),
    {
        match self.stage {
            Stage::Ready => {},
            _ => {
                return Step::Failed(Error::NotReady);
            },
        }
        let slot = match self.data.frame_slot(self.frame) {
            Some(slot) => slot,
            None => {
                return Step::Failed(Error::NotReady);
            },
        };
        self.stage = Stage::Acquiring;
        Step::Perform(
            single(
                Command::AcquireNextImage {
                    swapchain: self.data.swapchain,
                    timeout: NO_TIMEOUT,
                    semaphore: slot.image_available,
                    fence: NULL_HANDLE,
                },
            ),
        )
    }

    /// Begins a rebuild of the swapchain from outside a frame: between
    /// frames, or after a build that failed.
    pub fn recreate(&mut self) -> (step: Step)
        ensures
            (final(self)@, step@) == old(self)@.begin_rebuild(),
    {
        match self.stage {
            Stage::Ready | Stage::Stale => self.start_rebuild(Resume::Finish),
            _ => Step::Failed(Error::NotReady),
        }
    }

    /// Takes the running protocol one step further, given the reply to the
    /// last command of the batch that the step before handed out.
    pub fn advance(&mut self, reply: Reply) -> (step: Step)
        ensures
            (final(self)@, step@) == old(self)@.next(reply@),
    {
        match self.stage {
            Stage::Building { build, resume } => {
                let progress = recreate_swapchain(&mut self.data, build, reply);
                match progress {
                    Progress::Next { build, commands } => {
                        self.stage = Stage::Building { build, resume };
                        Step::Perform(commands)
                    },
                    Progress::Complete => match resume {
                        Resume::Finish => {
                            self.stage = Stage::Ready;
                            Step::Finished
                        },
                        Resume::Drain => self.drain(),
                    },
                    Progress::Failed(error) => {
                        self.stage = Stage::Stale;
                        Step::Failed(error)
                    },
                }
            },
            Stage::Acquiring => match reply {
                Reply::Acquired { image_index } => {
                    if self.data.frame_slot(self.frame).is_none() {
                        return self.abort(Error::NotReady);
                    }
                    if !self.image_ready(image_index) {
                        return self.abort(Error::ImageOutOfRange);
                    }
                    let fence = self.data.images_in_flight[image_index as usize];
                    if fence != NULL_HANDLE {
                        self.stage = Stage::WaitingForImage { image: image_index };
                        Step::Perform(
                            single(Command::WaitForFences { fence, timeout: NO_TIMEOUT }),
                        )
                    } else {
                        self.mark_and_reset(image_index)
                    }
                },
                Reply::Failed(code) => {
                    if code == ERROR_OUT_OF_DATE {
                        self.start_rebuild(Resume::Finish)
                    } else {
                        self.abort(Error::Vulkan(code))
                    }
                },
                _ => self.abort(Error::UnexpectedReply),
            },
            Stage::WaitingForImage { image } => match reply {
                Reply::Done => self.mark_and_reset(image),
                Reply::Failed(code) => self.abort(Error::Vulkan(code)),
                _ => self.abort(Error::UnexpectedReply),
            },
            Stage::Resetting { image } => match reply {
                Reply::Done => {
                    let slot = match self.data.frame_slot(self.frame) {
                        Some(slot) => slot,
                        None => {
                            return self.abort(Error::NotReady);
                        },
                    };
                    if !self.image_ready(image) {
                        return self.abort(Error::NotReady);
                    }
                    self.stage = Stage::Submitting { image };
                    Step::Perform(
                        single(
                            Command::QueueSubmit {
                                queue: self.data.graphics_queue,
                                wait_semaphore: slot.image_available,
                                wait_stage: PIPELINE_STAGE_COLOR_ATTACHMENT_OUTPUT,
                                command_buffer: self.data.command_buffers[image as usize],
                                signal_semaphore: slot.render_finished,
                                fence: slot.in_flight,
                            },
                        ),
                    )
                },
                Reply::Failed(code) => self.abort(Error::Vulkan(code)),
                _ => self.abort(Error::UnexpectedReply),
            },
            Stage::Submitting { image } => match reply {
                Reply::Done => {
                    let slot = match self.data.frame_slot(self.frame) {
                        Some(slot) => slot,
                        None => {
                            return self.abort(Error::NotReady);
                        },
                    };
                    self.stage = Stage::Presenting { image };
                    Step::Perform(
                        single(
                            Command::QueuePresent {
                                queue: self.data.present_queue,
                                wait_semaphore: slot.render_finished,
                                swapchain: self.data.swapchain,
                                image_index: image,
                            },
                        ),
                    )
                },
                Reply::Failed(code) => self.abort(Error::Vulkan(code)),
                _ => self.abort(Error::UnexpectedReply),
            },
            Stage::Presenting { image } => match reply {
                Reply::Presented { suboptimal } => {
                    if self.resized || suboptimal {
                        self.resized = false;
                        self.start_rebuild(Resume::Drain)
                    } else {
                        self.drain()
                    }
                },
                Reply::Failed(code) => {
                    if self.resized || code == ERROR_OUT_OF_DATE {
                        self.resized = false;
                        self.start_rebuild(Resume::Drain)
                    } else {
                        self.abort(Error::Vulkan(code))
                    }
                },
                _ => self.abort(Error::UnexpectedReply),
            },
            Stage::Draining => match reply {
                Reply::Done => {
                    if self.frame < MAX_FRAMES_IN_FLIGHT {
                        self.frame = (self.frame + 1) % MAX_FRAMES_IN_FLIGHT;
                        self.stage = Stage::Ready;
                        Step::Finished
                    } else {
                        self.abort(Error::NotReady)
                    }
                },
                Reply::Failed(code) => self.abort(Error::Vulkan(code)),
                _ => self.abort(Error::UnexpectedReply),
            },
            Stage::Ready | Stage::Stale | Stage::Destroyed => Step::Failed(
                Error::UnexpectedReply,
            ),
        }
    }

    /// Lists the commands that release everything the renderer holds, in
    /// order, and forgets the handles. The list holds a wait for the
    /// device; should that wait fail, it is for the caller to give up. A
    /// second teardown lists nothing.
    pub fn destroy(&mut self, validation: bool) -> (commands: Vec<Command>)
        ensures
            command_views(commands@) == old(self)@.teardown_commands(validation),
            final(self)@ == old(self)@.torn_down(validation),
    {
        match self.stage {
            Stage::Destroyed => {
                let commands: Vec<Command> = Vec::new();
                assert(command_views(commands@) =~= Seq::empty());
                return commands;
            },
            _ => {},
        }
        let mut commands = destroy_swapchain(&mut self.data);
        let ghost c0 = command_views(commands@);
        commands.push(Command::WaitDeviceIdle);
        assert(command_views(commands@) =~= c0.push(CommandView::WaitDeviceIdle));
        push_destroy_each(&mut commands, ObjectKind::Fence, &self.data.in_flight_fences);
        push_destroy_each(
            &mut commands,
            ObjectKind::Semaphore,
            &self.data.render_finished_semaphores,
        );
        push_destroy_each(
            &mut commands,
            ObjectKind::Semaphore,
            &self.data.image_available_semaphores,
        );
        push_destroy_unless_null(&mut commands, ObjectKind::CommandPool, self.data.command_pool);
        let ghost c1 = command_views(commands@);
        commands.push(Command::DestroyDevice);
        assert(command_views(commands@) =~= c1.push(CommandView::DestroyDevice));
        if validation {
            push_destroy_unless_null(
                &mut commands,
                ObjectKind::DebugMessenger,
                self.data.messenger,
            );
            self.data.messenger = NULL_HANDLE;
        }
        push_destroy_unless_null(&mut commands, ObjectKind::Surface, self.data.surface);
        let ghost c2 = command_views(commands@);
        commands.push(Command::DestroyInstance);
        assert(command_views(commands@) =~= c2.push(CommandView::DestroyInstance));
        assert(command_views(commands@) =~= old(self)@.teardown_commands(validation));
        self.data.in_flight_fences = Vec::new();
        self.data.render_finished_semaphores = Vec::new();
        self.data.image_available_semaphores = Vec::new();
        self.data.images_in_flight = Vec::new();
        self.data.command_pool = NULL_HANDLE;
        self.data.surface = NULL_HANDLE;
        self.stage = Stage::Destroyed;
        commands
    }
}

impl AppView {
    /// What holds of the state at every point of a run that began with
    /// [`App::create`]: the frame index names a frame slot; outside of a
    /// build the record is complete, with one view, framebuffer, command
    /// buffer and in-flight mark per image; inside a frame the acquired
    /// image is one of the swapchain's.
    pub open spec fn wf(self) -> bool {
        &&& self.frame < MAX_FRAMES_IN_FLIGHT
        &&& match self.stage {
            Stage::Building { build, .. } => build_consistent(self.data, build),
            Stage::Ready | Stage::Acquiring | Stage::Draining => {
                &&& self.data.images_consistent()
                &&& self.data.slots_complete(MAX_FRAMES_IN_FLIGHT as int)
            },
            Stage::WaitingForImage { image }
            | Stage::Resetting { image }
            | Stage::Submitting { image }
            | Stage::Presenting { image } => {
                &&& self.data.images_consistent()
                &&& self.data.slots_complete(MAX_FRAMES_IN_FLIGHT as int)
                &&& image < self.data.swapchain_images.len()
            },
            Stage::Stale | Stage::Destroyed => true,
        }
    }

    /// The state in which [`App::create`] starts the renderer.
    pub open spec fn created(data: AppDataView) -> AppView {
        AppView {
            data,
            frame: 0,
            resized: false,
            stage: Stage::Building { build: first_build(data).0, resume: Resume::Finish },
        }
    }
}

/// Whether a command belongs to the rendering of a frame: acquiring,
/// waiting for a fence, resetting one, submitting or presenting.
pub open spec fn is_frame_command(command: CommandView) -> bool {
    ||| command is AcquireNextImage
    ||| command is WaitForFences
    ||| command is ResetFences
    ||| command is QueueSubmit
    ||| command is QueuePresent
}

/// The renderer starts in a well-formed state.
pub proof fn lemma_created_wf(data: AppDataView)
    ensures
        AppView::created(data).wf(),
        batch_shaped(first_build(data).1),
{
    lemma_build_starts_consistent(data);
}

/// Every step keeps the state well-formed, hands out batches of the
/// promised shape only, and never finds the record lacking: in a
/// well-formed state no step fails with [`Error::NotReady`], and an
/// acquired image that is one of the swapchain's is never turned down.
pub proof fn lemma_next_wf(app: AppView, reply: ReplyView)
    requires
        app.wf(),
    ensures
        app.next(reply).0.wf(),
        app.next(reply).1 matches StepView::Perform(commands) ==> batch_shaped(commands),
        app.next(reply).1 != StepView::Failed(Error::NotReady),
        app.next(reply).1 == StepView::Failed(Error::ImageOutOfRange) ==> (reply matches ReplyView::Acquired {
            image_index,
        } && image_index >= app.data.swapchain_images.len()),
{
    match app.stage {
        Stage::Building { build, resume } => {
            lemma_build_step_consistent(app.data, build, reply);
        },
        _ => {
            lemma_build_starts_consistent(app.data);
        },
    }
}

/// Between frames a well-formed renderer can always begin a frame or a
/// rebuild, and stays well-formed.
pub proof fn lemma_begin_wf(app: AppView)
    requires
        app.wf(),
    ensures
        app.begin_frame().0.wf(),
        app.begin_rebuild().0.wf(),
        app.stage == Stage::Ready ==> app.begin_frame().1 is Perform,
        app.stage == Stage::Ready || app.stage == Stage::Stale ==> app.begin_rebuild().1
            == StepView::Perform(seq![CommandView::WaitDeviceIdle]),
{
    lemma_build_starts_consistent(app.data);
}

/// The frame index stays within the frame slots and changes in one way
/// only: when the wait that ends a frame has succeeded, it moves on to the
/// next slot, wrapping around after the last. With two slots it runs
/// 0, 1, 0, 1, and so on. Beginning a frame or a rebuild does not move it.
pub proof fn lemma_frame_index_cycles(app: AppView, reply: ReplyView)
    requires
        app.frame < MAX_FRAMES_IN_FLIGHT,
    ensures
        app.next(reply).0.frame < MAX_FRAMES_IN_FLIGHT,
        app.stage == Stage::Draining && reply is Done ==> {
            &&& app.next(reply).0.frame == (app.frame + 1) % (MAX_FRAMES_IN_FLIGHT as int)
            &&& app.next(reply).0.frame == 1 - app.frame
            &&& app.next(reply).1 is Finished
        },
        !(app.stage == Stage::Draining && reply is Done) ==> app.next(reply).0.frame
            == app.frame,
        app.begin_frame().0.frame == app.frame,
        app.begin_rebuild().0.frame == app.frame,
{
}

/// When acquiring reports that the surface is out of date, the frame is
/// given up for a rebuild: the one command handed out is the wait for the
/// device, which begins the rebuild; the record is untouched; and when the
/// rebuild is over the renderer is between frames, with the frame index
/// where it was.
pub proof fn lemma_out_of_date_on_acquire(app: AppView)
    requires
        app.stage == Stage::Acquiring,
    ensures
        app.next(ReplyView::Failed(ERROR_OUT_OF_DATE)) == (
            AppView {
                stage: Stage::Building { build: rebuild(app.data).0, resume: Resume::Finish },
                ..app
            },
            StepView::Perform(seq![CommandView::WaitDeviceIdle]),
        ),
{
}

/// While the swapchain is being built nothing is rendered and no second
/// rebuild begins: no batch holds a frame command or a wait for the device,
/// and the frame index and the resize flag stay as they are. The build
/// ends in one of three ways: between frames, where it interrupted the
/// acquiring of an image or was asked for from outside a frame; in the wait
/// for the presentation queue, where it followed a presentation; or stale,
/// where it failed.
pub proof fn lemma_build_renders_nothing(app: AppView, reply: ReplyView)
    requires
        app.stage is Building,
    ensures
        app.next(reply).0.frame == app.frame,
        app.next(reply).0.resized == app.resized,
        match app.next(reply).1 {
            StepView::Perform(commands) => {
                &&& app.next(reply).0.stage matches Stage::Building { resume, .. } ==> resume
                    == app.stage->resume
                &&& app.next(reply).0.stage is Building || (app.next(reply).0.stage
                    == Stage::Draining && app.stage->resume == Resume::Drain && commands
                    == seq![CommandView::WaitQueueIdle { queue: app.data.present_queue }])
                &&& forall|i: int|
                    0 <= i < commands.len() ==> !is_frame_command(#[trigger] commands[i])
                        && !(commands[i] is WaitDeviceIdle)
            },
            StepView::Finished => app.next(reply).0.stage == Stage::Ready && app.stage->resume
                == Resume::Finish,
            StepView::Failed(_) => app.next(reply).0.stage == Stage::Stale,
        },
{
    let build = app.stage->build;
    lemma_old_swapchain_outlives_replacement(app.data, build, reply);
    crate::swapchain::lemma_release_commands_release(app.data);
}

/// An image is never reused while a frame that rendered to it may still
/// be in flight. Where the acquired image carries the fence of an earlier
/// frame, the one command handed out is the wait for that fence, without a
/// deadline, and the record is untouched. Where it carries none, or once
/// that wait has succeeded, the image is marked with the current slot's
/// fence, no other mark changes, and the one command handed out resets that
/// fence.
pub proof fn lemma_image_waited_for_before_reuse(app: AppView, image: u32)
    requires
        app.wf(),
    ensures
        app.stage == Stage::Acquiring && image < app.data.swapchain_images.len()
            && app.data.images_in_flight[image as int] != NULL_HANDLE ==> app.next(
            ReplyView::Acquired { image_index: image },
        ) == (
            AppView { stage: Stage::WaitingForImage { image }, ..app },
            StepView::Perform(
                seq![
                    CommandView::WaitForFences {
                        fence: app.data.images_in_flight[image as int],
                        timeout: NO_TIMEOUT,
                    },
                ],
            ),
        ),
        (app.stage == Stage::Acquiring && image < app.data.swapchain_images.len()
            && app.data.images_in_flight[image as int] == NULL_HANDLE) ==> app.next(
            ReplyView::Acquired { image_index: image },
        ) == app.mark_and_reset(image),
        app.stage == (Stage::WaitingForImage { image }) ==> app.next(ReplyView::Done)
            == app.mark_and_reset(image),
        (app.stage == Stage::Acquiring || app.stage == (Stage::WaitingForImage { image }))
            && image < app.data.swapchain_images.len() ==> {
            let (marked, step) = app.mark_and_reset(image);
            let fence = app.data.in_flight_fences[app.frame as int];
            &&& marked.stage == Stage::Resetting { image }
            &&& marked.data.images_in_flight == app.data.images_in_flight.update(
                image as int,
                fence,
            )
            &&& step == StepView::Perform(seq![CommandView::ResetFences { fence }])
        },
{
}

/// A submission is handed out in one situation only: in answer to the
/// reset of the current slot's fence. It submits the command buffer
/// recorded for the acquired image, waits for the slot's "image available"
/// semaphore at the colour attachment output stage, signals the slot's
/// "render finished" semaphore, and is fenced by the fence just reset. The
/// presentation that follows waits for that "render finished" semaphore.
pub proof fn lemma_submission(app: AppView, reply: ReplyView)
    requires
        app.wf(),
    ensures
        match app.next(reply).1 {
            StepView::Perform(commands) => forall|i: int|
                0 <= i < commands.len() && #[trigger] commands[i] is QueueSubmit ==> {
                    &&& app.stage matches Stage::Resetting { image }
                    &&& reply is Done
                    &&& commands == seq![
                        CommandView::QueueSubmit {
                            queue: app.data.graphics_queue,
                            wait_semaphore: app.data.image_available_semaphores[app.frame as int],
                            wait_stage: PIPELINE_STAGE_COLOR_ATTACHMENT_OUTPUT,
                            command_buffer: app.data.command_buffers[image as int],
                            signal_semaphore: app.data.render_finished_semaphores[app.frame as int],
                            fence: app.data.in_flight_fences[app.frame as int],
                        },
                    ]
                },
            _ => true,
        },
        app.stage matches Stage::Submitting { image } ==> app.next(ReplyView::Done) == (
            AppView { stage: Stage::Presenting { image }, ..app },
            StepView::Perform(
                seq![
                    CommandView::QueuePresent {
                        queue: app.data.present_queue,
                        wait_semaphore: app.data.render_finished_semaphores[app.frame as int],
                        swapchain: app.data.swapchain,
                        image_index: image,
                    },
                ],
            ),
        ),
{
    if app.stage is Building {
        lemma_build_renders_nothing(app, reply);
    }
}

/// A rebuild that follows a presentation comes after it, not in its place:
/// it begins in answer to the presentation's reply, where that reply says
/// "suboptimal" or "out of date" or a resize was flagged, and it clears the
/// flag. Any other failure of the presentation ends the frame with that
/// error.
pub proof fn lemma_rebuild_after_present(app: AppView, reply: ReplyView)
    requires
        app.stage is Presenting,
    ensures
        match reply {
            ReplyView::Presented { suboptimal } => if app.resized || suboptimal {
                app.next(reply) == AppView { resized: false, ..app }.start_rebuild(Resume::Drain)
            } else {
                app.next(reply) == app.drain()
            },
            ReplyView::Failed(code) => if app.resized || code == ERROR_OUT_OF_DATE {
                app.next(reply) == AppView { resized: false, ..app }.start_rebuild(Resume::Drain)
            } else {
                app.next(reply) == app.abort(Error::Vulkan(code))
            },
            _ => app.next(reply) == app.abort(Error::UnexpectedReply),
        },
{
}

/// The teardown leaves nothing to tear down: a second one lists no command
/// and changes nothing.
pub proof fn lemma_teardown_once(app: AppView, validation: bool, again: bool)
    ensures
        app.torn_down(validation).stage == Stage::Destroyed,
        app.torn_down(validation).teardown_commands(again) == Seq::<CommandView>::empty(),
        app.torn_down(validation).torn_down(again) == app.torn_down(validation),
        app.torn_down(validation).wf() <==> app.frame < MAX_FRAMES_IN_FLIGHT,
{
}

/// The commands that a step hands out: those of its batch, or none.
pub open spec fn step_commands(step: StepView) -> Seq<CommandView> {
    match step {
        StepView::Perform(commands) => commands,
        _ => Seq::empty(),
    }
}

impl AppView {
    /// The renderer after the replies have been fed to it one after
    /// another, and all the commands that it handed out on the way.
    pub open spec fn run(self, replies: Seq<ReplyView>) -> (AppView, Seq<CommandView>)
        decreases replies.len(),
    {
        if replies.len() == 0 {
            (self, Seq::empty())
        } else {
            let (next, step) = self.next(replies[0]);
            let (last, rest) = next.run(replies.skip(1));
            (last, step_commands(step) + rest)
        }
    }

    /// Whether no frame is being rendered and none will be without a new
    /// call for one: the renderer is between frames, stale, torn down, or in
    /// a build after which the protocol ends.
    pub open spec fn outside_frame(self) -> bool {
        match self.stage {
            Stage::Building { resume, .. } => resume == Resume::Finish,
            Stage::Ready | Stage::Stale | Stage::Destroyed => true,
            _ => false,
        }
    }
}

/// Outside of a frame, whatever replies come in, nothing is rendered and no
/// rebuild begins: no command that is handed out belongs to the rendering
/// of a frame or waits for the device, and the frame index stays where it
/// is.
pub proof fn lemma_outside_frame_run(app: AppView, replies: Seq<ReplyView>)
    requires
        app.outside_frame(),
    ensures
        app.run(replies).0.outside_frame(),
        app.run(replies).0.frame == app.frame,
        forall|i: int|
            0 <= i < app.run(replies).1.len() ==> !is_frame_command(
                #[trigger] app.run(replies).1[i],
            ) && !(app.run(replies).1[i] is WaitDeviceIdle),
    decreases replies.len(),
{
    if replies.len() > 0 {
        let (next, step) = app.next(replies[0]);
        if app.stage is Building {
            lemma_build_renders_nothing(app, replies[0]);
        }
        lemma_outside_frame_run(next, replies.skip(1));
    }
}

/// When acquiring reports that the surface is out of date, then, whatever
/// replies follow: exactly one rebuild takes place, begun by the first
/// command that is handed out, the wait for the device; no command of the
/// frame is handed out, so nothing is submitted or presented; and the frame
/// index stays where it is, so that the next frame uses the same frame
/// slot.
pub proof fn lemma_out_of_date_frame_renders_nothing(app: AppView, replies: Seq<ReplyView>)
    requires
        app.stage == Stage::Acquiring,
    ensures
        ({
            let (last, commands) = app.run(seq![ReplyView::Failed(ERROR_OUT_OF_DATE)] + replies);
            &&& commands.len() >= 1
            &&& commands[0] == CommandView::WaitDeviceIdle
            &&& forall|i: int|
                1 <= i < commands.len() ==> !(#[trigger] commands[i] is WaitDeviceIdle)
            &&& forall|i: int| 0 <= i < commands.len() ==> !is_frame_command(#[trigger] commands[i])
            &&& last.frame == app.frame
            &&& last.outside_frame()
        }),
{
    let all = seq![ReplyView::Failed(ERROR_OUT_OF_DATE)] + replies;
    let (next, step) = app.next(all[0]);
    assert(all.skip(1) =~= replies);
    lemma_out_of_date_on_acquire(app);
    lemma_outside_frame_run(next, replies);
    let (last, rest) = next.run(replies);
    assert(app.run(all) == (last, step_commands(step) + rest));
    assert(step_commands(step) == seq![CommandView::WaitDeviceIdle]);
}

} // verus!
