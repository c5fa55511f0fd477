//! The swapchain manager: what a swapchain and its image views are created
//! with, in which order everything that hangs on the swapchain is released,
//! and the protocol by which the whole set is built and rebuilt.

use crate::command::{
    command_views, Command, CommandView, ComponentMapping, ImageSubresourceRange,
    ImageViewCreateInfo, ObjectKind, Reply, ReplyView, SwapchainCreateInfo,
    SwapchainCreateInfoView, COMPONENT_SWIZZLE_IDENTITY,
    COMPOSITE_ALPHA_OPAQUE, IMAGE_ASPECT_COLOR, IMAGE_USAGE_COLOR_ATTACHMENT, IMAGE_VIEW_TYPE_2D,
    NULL_HANDLE, SHARING_MODE_CONCURRENT, SHARING_MODE_EXCLUSIVE,
};
use crate::data::{AppData, AppDataView};
use crate::device::{queue_family_indices, QueueFamilyIndices};
use crate::error::Error;
use crate::surface::{
    chosen_extent, chosen_image_count, chosen_present_mode, chosen_surface_format,
    get_swapchain_extent, get_swapchain_image_count, get_swapchain_present_mode,
    get_swapchain_surface_format, Extent2D, SwapchainSupport, SwapchainSupportView,
};
use crate::MAX_FRAMES_IN_FLIGHT;
use vstd::prelude::*;

verus! {

/// The queue families that share the swapchain's images: both, where
/// graphics and presentation are different families; none, where one family
/// does both and owns the images alone.
pub open spec fn sharing_families(indices: QueueFamilyIndices) -> Seq<u32> {
    if indices.graphics != indices.present {
        seq![indices.graphics, indices.present]
    } else {
        Seq::empty()
    }
}

/// What the swapchain is created with, for a window of inner size `window`
/// on `surface`: the negotiated format, colour space, presentation mode,
/// extent and image count; single-layer colour attachment images; the
/// surface's current transform; opaque composition; and `old_swapchain` as
/// the swapchain being replaced.
pub open spec fn swapchain_create_info(
    window: Extent2D,
    support: SwapchainSupportView,
    indices: QueueFamilyIndices,
    surface: u64,
    old_swapchain: u64,
) -> SwapchainCreateInfoView {
    let format = chosen_surface_format(support.formats);
    SwapchainCreateInfoView {
        surface,
        min_image_count: chosen_image_count(support.capabilities) as u32,
        image_format: format.format,
        image_color_space: format.color_space,
        image_extent: chosen_extent(window, support.capabilities),
        image_array_layers: 1,
        image_usage: IMAGE_USAGE_COLOR_ATTACHMENT,
        image_sharing_mode: if indices.graphics != indices.present {
            SHARING_MODE_CONCURRENT
        } else {
            SHARING_MODE_EXCLUSIVE
        },
        queue_family_indices: sharing_families(indices),
        pre_transform: support.capabilities.current_transform,
        composite_alpha: COMPOSITE_ALPHA_OPAQUE,
        present_mode: chosen_present_mode(support.present_modes),
        old_swapchain,
    }
}

/// Works out what the swapchain is to be created with.
pub fn create_swapchain(
    window: Extent2D,
    support: &SwapchainSupport,
    indices: QueueFamilyIndices,
    surface: u64,
    old_swapchain: u64,
) -> (info: SwapchainCreateInfo)
    requires
        support.formats.len() > 0,
        chosen_image_count(support.capabilities) <= u32::MAX,
    ensures
        info@ == swapchain_create_info(window, support@, indices, surface, old_swapchain),
{
    let surface_format = get_swapchain_surface_format(&support.formats);
    let present_mode = get_swapchain_present_mode(&support.present_modes);
    let extent = get_swapchain_extent(window, support.capabilities);
    let image_count = get_swapchain_image_count(support.capabilities);
    let mut queue_family_indices: Vec<u32> = Vec::new();
    let image_sharing_mode = if indices.graphics != indices.present {
        queue_family_indices.push(indices.graphics);
        queue_family_indices.push(indices.present);
        SHARING_MODE_CONCURRENT
    } else {
        SHARING_MODE_EXCLUSIVE
    };
    assert(queue_family_indices@ =~= sharing_families(indices));
    SwapchainCreateInfo {
        surface,
        min_image_count: image_count,
        image_format: surface_format.format,
        image_color_space: surface_format.color_space,
        image_extent: extent,
        image_array_layers: 1,
        image_usage: IMAGE_USAGE_COLOR_ATTACHMENT,
        image_sharing_mode,
        queue_family_indices,
        pre_transform: support.capabilities.current_transform,
        composite_alpha: COMPOSITE_ALPHA_OPAQUE,
        present_mode,
        old_swapchain,
    }
}

/// What the view of one swapchain image is created with: a 2D view of the
/// whole image in the swapchain's format, colour aspect, one mip level, one
/// layer, components unchanged.
pub open spec fn image_view_info(image: u64, format: i32) -> ImageViewCreateInfo {
    ImageViewCreateInfo {
        image,
        view_type: IMAGE_VIEW_TYPE_2D,
        format,
        components: ComponentMapping {
            r: COMPONENT_SWIZZLE_IDENTITY,
            g: COMPONENT_SWIZZLE_IDENTITY,
            b: COMPONENT_SWIZZLE_IDENTITY,
            a: COMPONENT_SWIZZLE_IDENTITY,
        },
        subresource_range: ImageSubresourceRange {
            aspect_mask: IMAGE_ASPECT_COLOR,
            base_mip_level: 0,
            level_count: 1,
            base_array_layer: 0,
            layer_count: 1,
        },
    }
}

/// One [`image_view_info`] per image, in the images' order.
pub open spec fn image_view_infos(images: Seq<u64>, format: i32) -> Seq<ImageViewCreateInfo> {
    Seq::new(images.len(), |i: int| image_view_info(images[i], format))
}

fn view_info(image: u64, format: i32) -> (info: ImageViewCreateInfo)
    ensures
        info == image_view_info(image, format),
{
    ImageViewCreateInfo {
        image,
        view_type: IMAGE_VIEW_TYPE_2D,
        format,
        components: ComponentMapping {
            r: COMPONENT_SWIZZLE_IDENTITY,
            g: COMPONENT_SWIZZLE_IDENTITY,
            b: COMPONENT_SWIZZLE_IDENTITY,
            a: COMPONENT_SWIZZLE_IDENTITY,
        },
        subresource_range: ImageSubresourceRange {
            aspect_mask: IMAGE_ASPECT_COLOR,
            base_mip_level: 0,
            level_count: 1,
            base_array_layer: 0,
            layer_count: 1,
        },
    }
}

/// Works out what the image views of the current swapchain images are to
/// be created with.
pub fn create_swapchain_image_views(data: &AppData) -> (infos: Vec<ImageViewCreateInfo>)
    ensures
        infos@ == image_view_infos(data@.swapchain_images, data@.swapchain_format),
{
    let mut infos: Vec<ImageViewCreateInfo> = Vec::new();
    let mut i: usize = 0;
    while i < data.swapchain_images.len()
        invariant
            i <= data.swapchain_images.len(),
            infos@ == image_view_infos(
                data.swapchain_images@.take(i as int),
                data.swapchain_format,
            ),
        decreases data.swapchain_images.len() - i,
    {
        infos.push(view_info(data.swapchain_images[i], data.swapchain_format));
        i += 1;
    }
    assert(data.swapchain_images@.take(i as int) == data.swapchain_images@);
    infos
}

/// The command that destroys `handle`, unless it is the null handle.
pub open spec fn destroy_unless_null(kind: ObjectKind, handle: u64) -> Seq<CommandView> {
    if handle != NULL_HANDLE {
        seq![CommandView::Destroy { kind, handle }]
    } else {
        Seq::empty()
    }
}

/// One destroy command per handle, in the handles' order.
pub open spec fn destroy_each(kind: ObjectKind, handles: Seq<u64>) -> Seq<CommandView> {
    Seq::new(handles.len(), |i: int| CommandView::Destroy { kind, handle: handles[i] })
}

/// The command that gives the command buffers back to their pool, unless
/// there are none.
pub open spec fn free_command_buffers(pool: u64, buffers: Seq<u64>) -> Seq<CommandView> {
    if buffers.len() > 0 {
        seq![CommandView::FreeCommandBuffers { pool, buffers }]
    } else {
        Seq::empty()
    }
}

/// The commands that release everything whose size or validity hangs on
/// the swapchain's images, in the order of dependency: command buffers,
/// framebuffers, pipeline, pipeline layout, render pass, image views.
pub open spec fn release_commands(data: AppDataView) -> Seq<CommandView> {
    free_command_buffers(data.command_pool, data.command_buffers) + destroy_each(
        ObjectKind::Framebuffer,
        data.framebuffers,
    ) + destroy_unless_null(ObjectKind::Pipeline, data.pipeline) + destroy_unless_null(
        ObjectKind::PipelineLayout,
        data.pipeline_layout,
    ) + destroy_unless_null(ObjectKind::RenderPass, data.render_pass) + destroy_each(
        ObjectKind::ImageView,
        data.swapchain_image_views,
    )
}

/// The record after [`release_commands`]: the released handles are null
/// and their lists empty; all else is as before.
pub open spec fn released(data: AppDataView) -> AppDataView {
    AppDataView {
        command_buffers: Seq::empty(),
        framebuffers: Seq::empty(),
        pipeline: NULL_HANDLE,
        pipeline_layout: NULL_HANDLE,
        render_pass: NULL_HANDLE,
        swapchain_image_views: Seq::empty(),
        ..data
    }
}

/// Appends the command that destroys `handle`, unless it is null.
pub(crate) fn push_destroy_unless_null(commands: &mut Vec<Command>, kind: ObjectKind, handle: u64)
    ensures
        command_views(final(commands)@) == command_views(old(commands)@) + destroy_unless_null(
            kind,
            handle,
        ),
{
    if handle != NULL_HANDLE {
        commands.push(Command::Destroy { kind, handle });
    }
    assert(command_views(commands@) =~= command_views(old(commands)@) + destroy_unless_null(
        kind,
        handle,
    ));
}

/// Appends one destroy command per handle.
pub(crate) fn push_destroy_each(commands: &mut Vec<Command>, kind: ObjectKind, handles: &Vec<u64>)
    ensures
        command_views(final(commands)@) == command_views(old(commands)@) + destroy_each(
            kind,
            handles@,
        ),
{
    let mut i: usize = 0;
    assert(command_views(commands@) =~= command_views(old(commands)@) + destroy_each(
        kind,
        handles@.take(0),
    ));
    while i < handles.len()
        invariant
            i <= handles.len(),
            command_views(commands@) == command_views(old(commands)@) + destroy_each(
                kind,
                handles@.take(i as int),
            ),
        decreases handles.len() - i,
    {
        let ghost before = commands@;
        commands.push(Command::Destroy { kind, handle: handles[i] });
        assert(command_views(commands@) =~= command_views(before).push(
            CommandView::Destroy { kind, handle: handles@[i as int] },
        ));
        assert(destroy_each(kind, handles@.take(i + 1)) =~= destroy_each(
            kind,
            handles@.take(i as int),
        ).push(CommandView::Destroy { kind, handle: handles@[i as int] }));
        i += 1;
    }
    assert(handles@.take(i as int) == handles@);
}

/// Lists the commands that release everything that hangs on the
/// swapchain's images, and forgets the released handles. On a record whose
/// dependents are already released the list is empty and the record stays
/// as it is.
pub fn cleanup_swapchain_resources(data: &mut AppData) -> (commands: Vec<Command>)
    ensures
        command_views(commands@) == release_commands(old(data)@),
        final(data)@ == released(old(data)@),
{
    let mut commands: Vec<Command> = Vec::new();
    assert(command_views(commands@) =~= Seq::empty());
    let mut buffers: Vec<u64> = Vec::new();
    std::mem::swap(&mut buffers, &mut data.command_buffers);
    if buffers.len() > 0 {
        commands.push(Command::FreeCommandBuffers { pool: data.command_pool, buffers });
    }
    assert(command_views(commands@) =~= free_command_buffers(
        old(data)@.command_pool,
        old(data)@.command_buffers,
    ));
    push_destroy_each(&mut commands, ObjectKind::Framebuffer, &data.framebuffers);
    data.framebuffers = Vec::new();
    push_destroy_unless_null(&mut commands, ObjectKind::Pipeline, data.pipeline);
    data.pipeline = NULL_HANDLE;
    push_destroy_unless_null(&mut commands, ObjectKind::PipelineLayout, data.pipeline_layout);
    data.pipeline_layout = NULL_HANDLE;
    push_destroy_unless_null(&mut commands, ObjectKind::RenderPass, data.render_pass);
    data.render_pass = NULL_HANDLE;
    push_destroy_each(&mut commands, ObjectKind::ImageView, &data.swapchain_image_views);
    data.swapchain_image_views = Vec::new();
    commands
}

/// The commands of [`destroy_swapchain`]: the release of the dependents,
/// then the destruction of the swapchain itself.
pub open spec fn swapchain_teardown_commands(data: AppDataView) -> Seq<CommandView> {
    release_commands(data) + destroy_unless_null(ObjectKind::Swapchain, data.swapchain)
}

/// The record after [`swapchain_teardown_commands`]: dependents released,
/// no swapchain, no images.
pub open spec fn swapchain_torn_down(data: AppDataView) -> AppDataView {
    AppDataView { swapchain: NULL_HANDLE, swapchain_images: Seq::empty(), ..released(data) }
}

/// Lists the commands that release the dependents and then the swapchain,
/// and forgets the released handles.
pub fn destroy_swapchain(data: &mut AppData) -> (commands: Vec<Command>)
    ensures
        command_views(commands@) == swapchain_teardown_commands(old(data)@),
        final(data)@ == swapchain_torn_down(old(data)@),
{
    let mut commands = cleanup_swapchain_resources(data);
    push_destroy_unless_null(&mut commands, ObjectKind::Swapchain, data.swapchain);
    data.swapchain = NULL_HANDLE;
    data.swapchain_images = Vec::new();
    commands
}

/// Releasing twice in a row is safe: after a release nothing is left to
/// release, so the second list is empty and the record does not change.
pub proof fn lemma_release_idempotent(data: AppDataView)
    ensures
        released(data).dependents_released(),
        release_commands(released(data)) == Seq::<CommandView>::empty(),
        released(released(data)) == released(data),
{
    assert(release_commands(released(data)) =~= Seq::<CommandView>::empty());
}

/// On a record whose dependents are released, a release does nothing.
pub proof fn lemma_release_of_released(data: AppDataView)
    requires
        data.dependents_released(),
    ensures
        release_commands(data) == Seq::<CommandView>::empty(),
        released(data) == data,
{
    assert(release_commands(data) =~= Seq::<CommandView>::empty());
    assert(data.command_buffers =~= Seq::empty());
    assert(data.framebuffers =~= Seq::empty());
    assert(data.swapchain_image_views =~= Seq::empty());
}

/// Tearing the swapchain down twice in a row is safe as well.
pub proof fn lemma_teardown_idempotent(data: AppDataView)
    ensures
        swapchain_teardown_commands(swapchain_torn_down(data)) == Seq::<CommandView>::empty(),
        swapchain_torn_down(swapchain_torn_down(data)) == swapchain_torn_down(data),
{
    assert(swapchain_teardown_commands(swapchain_torn_down(data)) =~= Seq::<
        CommandView,
    >::empty());
}

/// Where the building of the swapchain and its dependents stands: the
/// answer that is awaited.
#[derive(Clone, Copy, Debug, PartialEq, Eq, Structural)]
pub enum BuildStep {
    /// The device is being waited for.
    DeviceIdle,
    /// The surface is being asked what it supports.
    Surface,
    /// The swapchain is being created, with this format and extent.
    Swapchain { format: i32, extent: Extent2D },
    /// The new swapchain is being asked for its images.
    Images { format: i32, extent: Extent2D },
    /// The image views are being created.
    ImageViews,
    /// The render pass is being created.
    RenderPass,
    /// The pipeline is being created.
    Pipeline,
    /// The framebuffers are being created.
    Framebuffers,
    /// The command pool is being created, where the record holds none.
    CommandPool,
    /// The command buffers are being allocated and recorded.
    CommandBuffers,
    /// The frame slots' semaphores and fences are being created, where the
    /// record does not hold them.
    SyncObjects,
}

/// A build in progress.
#[derive(Clone, Copy, Debug, PartialEq, Eq, Structural)]
pub struct Build {
    pub step: BuildStep,
    /// The swapchain that is being replaced, or the null handle.
    pub old_swapchain: u64,
}

/// What a step of a build leads to.
#[derive(Debug, PartialEq, Eq)]
pub enum Progress {
    /// Perform `commands` in order and come back with the reply to the last
    /// of them.
    Next { build: Build, commands: Vec<Command> },
    /// Everything is built.
    Complete,
    /// The build has failed and is over.
    Failed(Error),
}

/// The mathematical content of a [`Progress`].
pub enum ProgressView {
    Next { build: Build, commands: Seq<CommandView> },
    Complete,
    Failed(Error),
}

impl View for Progress {
    type V = ProgressView;

    open spec fn view(&self) -> ProgressView {
        match *self {
            Progress::Next { build, commands } => ProgressView::Next {
                build,
                commands: command_views(commands@),
            },
            Progress::Complete => ProgressView::Complete,
            Progress::Failed(error) => ProgressView::Failed(error),
        }
    }
}

/// `n` null handles.
pub open spec fn null_handles(n: nat) -> Seq<u64> {
    Seq::new(n, |i: int| NULL_HANDLE)
}

/// What a failed or misplaced reply leads to: the error code of a failure,
/// and a protocol error for anything else.
pub open spec fn refused(reply: ReplyView) -> ProgressView {
    match reply {
        ReplyView::Failed(code) => ProgressView::Failed(Error::Vulkan(code)),
        _ => ProgressView::Failed(Error::UnexpectedReply),
    }
}

/// The first step of a first build: nothing is waited for and nothing is
/// replaced; the surface is asked what it supports.
pub open spec fn first_build(data: AppDataView) -> (Build, Seq<CommandView>) {
    (
        Build { step: BuildStep::Surface, old_swapchain: NULL_HANDLE },
        seq![
            CommandView::QuerySurface {
                physical_device: data.physical_device,
                surface: data.surface,
            },
        ],
    )
}

/// The first step of a rebuild: the device is waited for.
pub open spec fn rebuild(data: AppDataView) -> (Build, Seq<CommandView>) {
    (
        Build { step: BuildStep::DeviceIdle, old_swapchain: data.swapchain },
        seq![CommandView::WaitDeviceIdle],
    )
}

/// One step of the build protocol: from the record, the build's progress
/// and the reply to the last command, to the new record and what follows.
///
/// The order is: wait for the device; release the dependents; ask the
/// surface; create the new swapchain, with the old one named as the one it
/// replaces; fetch its images; only then destroy the old swapchain; create
/// the image views, the render pass, the pipeline, the framebuffers, the
/// command pool (where there is none yet), the command buffers, the frame
/// slots (where they do not exist yet); and mark every image as not in
/// flight. The command pool and the frame slots outlive every rebuild, so
/// only the first build creates them.
pub open spec fn build_next(data: AppDataView, build: Build, reply: ReplyView) -> (
    AppDataView,
    ProgressView,
) {
    match build.step {
        BuildStep::DeviceIdle => match reply {
            ReplyView::Done => (
                released(data),
                ProgressView::Next {
                    build: Build { step: BuildStep::Surface, old_swapchain: data.swapchain },
                    commands: release_commands(data).push(
                        CommandView::QuerySurface {
                            physical_device: data.physical_device,
                            surface: data.surface,
                        },
                    ),
                },
            ),
            _ => (data, refused(reply)),
        },
        BuildStep::Surface => match reply {
            ReplyView::Surface(report) => if report.queue_families.len() > u32::MAX {
                (data, ProgressView::Failed(Error::UnexpectedReply))
            } else {
                match queue_family_indices(report.queue_families) {
                    Err(error) => (data, ProgressView::Failed(error)),
                    Ok(indices) => match report.support {
                        Err(code) => (data, ProgressView::Failed(Error::Vulkan(code))),
                        Ok(support) => if !support.adequate() {
                            (data, ProgressView::Failed(Error::InsufficientSurface))
                        } else {
                            let info = swapchain_create_info(
                                report.window,
                                support,
                                indices,
                                data.surface,
                                build.old_swapchain,
                            );
                            (
                                data,
                                ProgressView::Next {
                                    build: Build {
                                        step: BuildStep::Swapchain {
                                            format: info.image_format,
                                            extent: info.image_extent,
                                        },
                                        ..build
                                    },
                                    commands: seq![CommandView::CreateSwapchain { info }],
                                },
                            )
                        },
                    },
                }
            },
            _ => (data, refused(reply)),
        },
        BuildStep::Swapchain { format, extent } => match reply {
            ReplyView::Handle(swapchain) => (
                AppDataView { swapchain, ..data },
                ProgressView::Next {
                    build: Build { step: BuildStep::Images { format, extent }, ..build },
                    commands: seq![CommandView::GetSwapchainImages { swapchain }],
                },
            ),
            _ => (data, refused(reply)),
        },
        BuildStep::Images { format, extent } => match reply {
            ReplyView::Handles(images) => {
                let data = AppDataView {
                    swapchain_images: images,
                    swapchain_format: format,
                    swapchain_extent: extent,
                    ..data
                };
                if images.len() == 0 {
                    (data, ProgressView::Failed(Error::ImageCountMismatch))
                } else {
                    (
                        data,
                        ProgressView::Next {
                            build: Build { step: BuildStep::ImageViews, ..build },
                            commands: destroy_unless_null(
                                ObjectKind::Swapchain,
                                build.old_swapchain,
                            ).push(
                                CommandView::CreateImageViews {
                                    infos: image_view_infos(images, format),
                                },
                            ),
                        },
                    )
                }
            },
            _ => (data, refused(reply)),
        },
        BuildStep::ImageViews => match reply {
            ReplyView::Handles(views) => {
                let data = AppDataView { swapchain_image_views: views, ..data };
                if views.len() != data.swapchain_images.len() {
                    (data, ProgressView::Failed(Error::ImageCountMismatch))
                } else {
                    (
                        data,
                        ProgressView::Next {
                            build: Build { step: BuildStep::RenderPass, ..build },
                            commands: seq![
                                CommandView::CreateRenderPass { format: data.swapchain_format },
                            ],
                        },
                    )
                }
            },
            _ => (data, refused(reply)),
        },
        BuildStep::RenderPass => match reply {
            ReplyView::Handle(render_pass) => (
                AppDataView { render_pass, ..data },
                ProgressView::Next {
                    build: Build { step: BuildStep::Pipeline, ..build },
                    commands: seq![
                        CommandView::CreatePipeline {
                            extent: data.swapchain_extent,
                            render_pass,
                        },
                    ],
                },
            ),
            _ => (data, refused(reply)),
        },
        BuildStep::Pipeline => match reply {
            ReplyView::Pipeline { layout, pipeline } => (
                AppDataView { pipeline_layout: layout, pipeline, ..data },
                ProgressView::Next {
                    build: Build { step: BuildStep::Framebuffers, ..build },
                    commands: seq![
                        CommandView::CreateFramebuffers {
                            render_pass: data.render_pass,
                            extent: data.swapchain_extent,
                            views: data.swapchain_image_views,
                        },
                    ],
                },
            ),
            _ => (data, refused(reply)),
        },
        BuildStep::Framebuffers => match reply {
            ReplyView::Handles(framebuffers) => {
                let data = AppDataView { framebuffers, ..data };
                if framebuffers.len() != data.swapchain_images.len() {
                    (data, ProgressView::Failed(Error::ImageCountMismatch))
                } else if data.command_pool == NULL_HANDLE {
                    (
                        data,
                        ProgressView::Next {
                            build: Build { step: BuildStep::CommandPool, ..build },
                            commands: seq![CommandView::CreateCommandPool],
                        },
                    )
                } else {
                    (
                        data,
                        ProgressView::Next {
                            build: Build { step: BuildStep::CommandBuffers, ..build },
                            commands: seq![
                                CommandView::CreateCommandBuffers {
                                    pool: data.command_pool,
                                    framebuffers,
                                },
                            ],
                        },
                    )
                }
            },
            _ => (data, refused(reply)),
        },
        BuildStep::CommandPool => match reply {
            ReplyView::Handle(pool) => (
                AppDataView { command_pool: pool, ..data },
                ProgressView::Next {
                    build: Build { step: BuildStep::CommandBuffers, ..build },
                    commands: seq![
                        CommandView::CreateCommandBuffers {
                            pool,
                            framebuffers: data.framebuffers,
                        },
                    ],
                },
            ),
            _ => (data, refused(reply)),
        },
        BuildStep::CommandBuffers => match reply {
            ReplyView::Handles(buffers) => {
                let data = AppDataView { command_buffers: buffers, ..data };
                if buffers.len() != data.swapchain_images.len() {
                    (data, ProgressView::Failed(Error::ImageCountMismatch))
                } else if !data.slots_complete(MAX_FRAMES_IN_FLIGHT as int) {
                    (
                        data,
                        ProgressView::Next {
                            build: Build { step: BuildStep::SyncObjects, ..build },
                            commands: seq![
                                CommandView::CreateSyncObjects { frames: MAX_FRAMES_IN_FLIGHT },
                            ],
                        },
                    )
                } else {
                    (
                        AppDataView {
                            images_in_flight: null_handles(data.swapchain_images.len()),
                            ..data
                        },
                        ProgressView::Complete,
                    )
                }
            },
            _ => (data, refused(reply)),
        },
        BuildStep::SyncObjects => match reply {
            ReplyView::SyncObjects { image_available, render_finished, in_flight } => {
                let data = AppDataView {
                    image_available_semaphores: image_available,
                    render_finished_semaphores: render_finished,
                    in_flight_fences: in_flight,
                    ..data
                };
                if !data.slots_complete(MAX_FRAMES_IN_FLIGHT as int) {
                    (data, ProgressView::Failed(Error::UnexpectedReply))
                } else {
                    (
                        AppDataView {
                            images_in_flight: null_handles(data.swapchain_images.len()),
                            ..data
                        },
                        ProgressView::Complete,
                    )
                }
            },
            _ => (data, refused(reply)),
        },
    }
}

/// A list of `n` null handles.
fn make_null_handles(n: usize) -> (handles: Vec<u64>)
    ensures
        handles@ == null_handles(n as nat),
{
    let mut handles: Vec<u64> = Vec::new();
    let mut i: usize = 0;
    while i < n
        invariant
            i <= n,
            handles@ == null_handles(i as nat),
        decreases n - i,
    {
        handles.push(NULL_HANDLE);
        i += 1;
    }
    handles
}

/// A copy of a list of handles.
fn copy_handles(handles: &Vec<u64>) -> (copy: Vec<u64>)
    ensures
        copy@ == handles@,
{
    let mut copy: Vec<u64> = Vec::new();
    let mut i: usize = 0;
    while i < handles.len()
        invariant
            i <= handles.len(),
            copy@ == handles@.take(i as int),
        decreases handles.len() - i,
    {
        copy.push(handles[i]);
        i += 1;
    }
    assert(handles@.take(i as int) == handles@);
    copy
}

/// A batch of one command.
pub(crate) fn single(command: Command) -> (commands: Vec<Command>)
    ensures
        command_views(commands@) == seq![command@],
{
    let mut commands: Vec<Command> = Vec::new();
    commands.push(command);
    assert(command_views(commands@) =~= seq![command@]);
    commands
}

/// Whether every frame slot has its semaphores and its fence.
fn slots_complete(data: &AppData) -> (complete: bool)
    ensures
        complete == data@.slots_complete(MAX_FRAMES_IN_FLIGHT as int),
{
    data.image_available_semaphores.len() == MAX_FRAMES_IN_FLIGHT
        && data.render_finished_semaphores.len() == MAX_FRAMES_IN_FLIGHT
        && data.in_flight_fences.len() == MAX_FRAMES_IN_FLIGHT
}

/// What a failed or misplaced reply leads to.
fn refuse(reply: Reply) -> (progress: Progress)
    ensures
        progress@ == refused(reply@),
{
    match reply {
        Reply::Failed(code) => Progress::Failed(Error::Vulkan(code)),
        _ => Progress::Failed(Error::UnexpectedReply),
    }
}

/// Starts the first build of the swapchain and its dependents.
pub fn begin_create(data: &AppData) -> (started: (Build, Vec<Command>))
    ensures
        (started.0, command_views(started.1@)) == first_build(data@),
{
    (
        Build { step: BuildStep::Surface, old_swapchain: NULL_HANDLE },
        single(
            Command::QuerySurface { physical_device: data.physical_device, surface: data.surface },
        ),
    )
}

/// Starts a rebuild of the swapchain and its dependents.
pub fn begin_recreate(data: &AppData) -> (started: (Build, Vec<Command>))
    ensures
        (started.0, command_views(started.1@)) == rebuild(data@),
{
    (
        Build { step: BuildStep::DeviceIdle, old_swapchain: data.swapchain },
        single(Command::WaitDeviceIdle),
    )
}

/// Takes a build one step further, given the reply to the last command of
/// the batch that the step before handed out.
pub fn recreate_swapchain(data: &mut AppData, build: Build, reply: Reply) -> (progress: Progress)
    ensures
        (final(data)@, progress@) == build_next(old(data)@, build, reply@),
{
    match build.step {
        BuildStep::DeviceIdle => match reply {
            Reply::Done => {
                let old_swapchain = data.swapchain;
                let mut commands = cleanup_swapchain_resources(data);
                let ghost released_views = command_views(commands@);
                commands.push(
                    Command::QuerySurface {
                        physical_device: data.physical_device,
                        surface: data.surface,
                    },
                );
                assert(command_views(commands@) =~= released_views.push(
                    CommandView::QuerySurface {
                        physical_device: data.physical_device,
                        surface: data.surface,
                    },
                ));
                Progress::Next {
                    build: Build { step: BuildStep::Surface, old_swapchain },
                    commands,
                }
            },
            other => refuse(other),
        },
        BuildStep::Surface => match reply {
            Reply::Surface(report) => {
                if report.queue_families.len() > u32::MAX as usize {
                    return Progress::Failed(Error::UnexpectedReply);
                }
                let indices = match QueueFamilyIndices::get(&report.queue_families) {
                    Ok(indices) => indices,
                    Err(error) => {
                        return Progress::Failed(error);
                    },
                };
                let support = match report.support {
                    Ok(support) => support,
                    Err(code) => {
                        return Progress::Failed(Error::Vulkan(code));
                    },
                };
                if !support.is_adequate() {
                    return Progress::Failed(Error::InsufficientSurface);
                }
                let info = create_swapchain(
                    report.window,
                    &support,
                    indices,
                    data.surface,
                    build.old_swapchain,
                );
                Progress::Next {
                    build: Build {
                        step: BuildStep::Swapchain {
                            format: info.image_format,
                            extent: info.image_extent,
                        },
                        old_swapchain: build.old_swapchain,
                    },
                    commands: single(Command::CreateSwapchain { info }),
                }
            },
            other => refuse(other),
        },
        BuildStep::Swapchain { format, extent } => match reply {
            Reply::Handle(swapchain) => {
                data.swapchain = swapchain;
                Progress::Next {
                    build: Build {
                        step: BuildStep::Images { format, extent },
                        old_swapchain: build.old_swapchain,
                    },
                    commands: single(Command::GetSwapchainImages { swapchain }),
                }
            },
            other => refuse(other),
        },
        BuildStep::Images { format, extent } => match reply {
            Reply::Handles(images) => {
                data.swapchain_images = images;
                data.swapchain_format = format;
                data.swapchain_extent = extent;
                if data.swapchain_images.len() == 0 {
                    return Progress::Failed(Error::ImageCountMismatch);
                }
                let mut commands: Vec<Command> = Vec::new();
                assert(command_views(commands@) =~= Seq::empty());
                push_destroy_unless_null(&mut commands, ObjectKind::Swapchain, build.old_swapchain);
                let ghost destroyed = command_views(commands@);
                let infos = create_swapchain_image_views(data);
                commands.push(Command::CreateImageViews { infos });
                assert(command_views(commands@) =~= destroyed.push(
                    CommandView::CreateImageViews { infos: infos@ },
                ));
                Progress::Next {
                    build: Build {
                        step: BuildStep::ImageViews,
                        old_swapchain: build.old_swapchain,
                    },
                    commands,
                }
            },
            other => refuse(other),
        },
        BuildStep::ImageViews => match reply {
            Reply::Handles(views) => {
                data.swapchain_image_views = views;
                if data.swapchain_image_views.len() != data.swapchain_images.len() {
                    return Progress::Failed(Error::ImageCountMismatch);
                }
                Progress::Next {
                    build: Build {
                        step: BuildStep::RenderPass,
                        old_swapchain: build.old_swapchain,
                    },
                    commands: single(Command::CreateRenderPass { format: data.swapchain_format }),
                }
            },
            other => refuse(other),
        },
        BuildStep::RenderPass => match reply {
            Reply::Handle(render_pass) => {
                data.render_pass = render_pass;
                Progress::Next {
                    build: Build {
                        step: BuildStep::Pipeline,
                        old_swapchain: build.old_swapchain,
                    },
                    commands: single(
                        Command::CreatePipeline { extent: data.swapchain_extent, render_pass },
                    ),
                }
            },
            other => refuse(other),
        },
        BuildStep::Pipeline => match reply {
            Reply::Pipeline { layout, pipeline } => {
                data.pipeline_layout = layout;
                data.pipeline = pipeline;
                Progress::Next {
                    build: Build {
                        step: BuildStep::Framebuffers,
                        old_swapchain: build.old_swapchain,
                    },
                    commands: single(
                        Command::CreateFramebuffers {
                            render_pass: data.render_pass,
                            extent: data.swapchain_extent,
                            views: copy_handles(&data.swapchain_image_views),
                        },
                    ),
                }
            },
            other => refuse(other),
        },
        BuildStep::Framebuffers => match reply {
            Reply::Handles(framebuffers) => {
                data.framebuffers = framebuffers;
                if data.framebuffers.len() != data.swapchain_images.len() {
                    return Progress::Failed(Error::ImageCountMismatch);
                }
                if data.command_pool == NULL_HANDLE {
                    Progress::Next {
                        build: Build {
                            step: BuildStep::CommandPool,
                            old_swapchain: build.old_swapchain,
                        },
                        commands: single(Command::CreateCommandPool),
                    }
                } else {
                    Progress::Next {
                        build: Build {
                            step: BuildStep::CommandBuffers,
                            old_swapchain: build.old_swapchain,
                        },
                        commands: single(
                            Command::CreateCommandBuffers {
                                pool: data.command_pool,
                                framebuffers: copy_handles(&data.framebuffers),
                            },
                        ),
                    }
                }
            },
            other => refuse(other),
        },
        BuildStep::CommandPool => match reply {
            Reply::Handle(pool) => {
                data.command_pool = pool;
                Progress::Next {
                    build: Build {
                        step: BuildStep::CommandBuffers,
                        old_swapchain: build.old_swapchain,
                    },
                    commands: single(
                        Command::CreateCommandBuffers {
                            pool,
                            framebuffers: copy_handles(&data.framebuffers),
                        },
                    ),
                }
            },
            other => refuse(other),
        },
        BuildStep::CommandBuffers => match reply {
            Reply::Handles(buffers) => {
                data.command_buffers = buffers;
                if data.command_buffers.len() != data.swapchain_images.len() {
                    return Progress::Failed(Error::ImageCountMismatch);
                }
                if !slots_complete(data) {
                    Progress::Next {
                        build: Build {
                            step: BuildStep::SyncObjects,
                            old_swapchain: build.old_swapchain,
                        },
                        commands: single(
                            Command::CreateSyncObjects { frames: MAX_FRAMES_IN_FLIGHT },
                        ),
                    }
                } else {
                    data.images_in_flight = make_null_handles(data.swapchain_images.len());
                    Progress::Complete
                }
            },
            other => refuse(other),
        },
        BuildStep::SyncObjects => match reply {
            Reply::SyncObjects { image_available, render_finished, in_flight } => {
                data.image_available_semaphores = image_available;
                data.render_finished_semaphores = render_finished;
                data.in_flight_fences = in_flight;
                if !slots_complete(data) {
                    return Progress::Failed(Error::UnexpectedReply);
                }
                data.images_in_flight = make_null_handles(data.swapchain_images.len());
                Progress::Complete
            },
            other => refuse(other),
        },
    }
}

/// Whether a command only releases an object. Such a command has nothing to
/// report.
pub open spec fn is_release(command: CommandView) -> bool {
    command is Destroy || command is FreeCommandBuffers
}

/// Whether a command destroys a swapchain.
pub open spec fn destroys_swapchain(command: CommandView) -> bool {
    command matches CommandView::Destroy { kind, .. } && kind == ObjectKind::Swapchain
}

/// Whether a batch has the shape that the protocol promises: it is not
/// empty, its last command is the one whose reply is awaited, and all
/// commands before that only release objects.
pub open spec fn batch_shaped(commands: Seq<CommandView>) -> bool {
    &&& commands.len() > 0
    &&& !is_release(commands.last())
    &&& forall|i: int| 0 <= i < commands.len() - 1 ==> is_release(#[trigger] commands[i])
}

/// What the record is known to hold while a build stands at a given step:
/// the objects made so far for the images are one per image.
pub open spec fn build_consistent(data: AppDataView, build: Build) -> bool {
    let images = data.swapchain_images.len();
    match build.step {
        BuildStep::DeviceIdle
        | BuildStep::Surface
        | BuildStep::Swapchain { .. }
        | BuildStep::Images { .. } => true,
        BuildStep::ImageViews => images > 0,
        BuildStep::RenderPass | BuildStep::Pipeline | BuildStep::Framebuffers => {
            &&& images > 0
            &&& data.swapchain_image_views.len() == images
        },
        BuildStep::CommandPool | BuildStep::CommandBuffers => {
            &&& images > 0
            &&& data.swapchain_image_views.len() == images
            &&& data.framebuffers.len() == images
        },
        BuildStep::SyncObjects => {
            &&& images > 0
            &&& data.swapchain_image_views.len() == images
            &&& data.framebuffers.len() == images
            &&& data.command_buffers.len() == images
        },
    }
}

/// Every command of a release is a release, and none of them destroys a
/// swapchain.
pub proof fn lemma_release_commands_release(data: AppDataView)
    ensures
        forall|i: int|
            0 <= i < release_commands(data).len() ==> is_release(
                #[trigger] release_commands(data)[i],
            ) && !destroys_swapchain(release_commands(data)[i]),
{
}

/// A build starts in a consistent state, with a batch of the promised
/// shape.
pub proof fn lemma_build_starts_consistent(data: AppDataView)
    ensures
        build_consistent(data, first_build(data).0),
        batch_shaped(first_build(data).1),
        build_consistent(data, rebuild(data).0),
        batch_shaped(rebuild(data).1),
{
}

/// Every step of a build keeps the record consistent and hands out a batch
/// of the promised shape. A build that completes leaves a record in which
/// image views, framebuffers, command buffers and the in-flight marks are
/// one per swapchain image, there is at least one image, and every frame
/// slot has its semaphores and its fence.
pub proof fn lemma_build_step_consistent(data: AppDataView, build: Build, reply: ReplyView)
    requires
        build_consistent(data, build),
    ensures
        match build_next(data, build, reply).1 {
            ProgressView::Next { build: next, commands } => {
                &&& build_consistent(build_next(data, build, reply).0, next)
                &&& batch_shaped(commands)
            },
            ProgressView::Complete => {
                &&& build_next(data, build, reply).0.images_consistent()
                &&& build_next(data, build, reply).0.slots_complete(MAX_FRAMES_IN_FLIGHT as int)
            },
            ProgressView::Failed(_) => true,
        },
{
    lemma_release_commands_release(data);
}

/// After any build that completes, the in-flight marks are as many as the
/// swapchain has images, and each of them is the null handle.
pub proof fn lemma_built_marks_match_images(data: AppDataView, build: Build, reply: ReplyView)
    requires
        build_next(data, build, reply).1 is Complete,
    ensures
        build_next(data, build, reply).0.images_in_flight.len() == build_next(
            data,
            build,
            reply,
        ).0.swapchain_images.len(),
        forall|i: int|
            0 <= i < build_next(data, build, reply).0.images_in_flight.len() ==> build_next(
                data,
                build,
                reply,
            ).0.images_in_flight[i] == NULL_HANDLE,
{
}

/// The swapchain that is being replaced outlives the creation of its
/// replacement: it is named to the creation as the one being replaced, and
/// the only command that ever destroys a swapchain during a build is handed
/// out in answer to the images of the new swapchain, and destroys the old
/// one.
pub proof fn lemma_old_swapchain_outlives_replacement(
    data: AppDataView,
    build: Build,
    reply: ReplyView,
)
    ensures
        match build_next(data, build, reply).1 {
            ProgressView::Next { build: next, commands } => {
                &&& build.step is DeviceIdle ==> next.old_swapchain == data.swapchain
                &&& !(build.step is DeviceIdle) ==> next.old_swapchain == build.old_swapchain
                &&& forall|i: int|
                    0 <= i < commands.len() ==> (#[trigger] commands[i] matches CommandView::CreateSwapchain {
                        info,
                    } ==> info.old_swapchain == build.old_swapchain)
                &&& forall|i: int|
                    0 <= i < commands.len() && destroys_swapchain(#[trigger] commands[i]) ==> {
                        &&& build.step is Images
                        &&& reply is Handles
                        &&& commands[i] == (CommandView::Destroy {
                            kind: ObjectKind::Swapchain,
                            handle: build.old_swapchain,
                        })
                    }
            },
            _ => true,
        },
{
    lemma_release_commands_release(data);
}

} // verus!
