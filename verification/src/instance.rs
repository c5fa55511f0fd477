//! What the Vulkan instance and the logical device are created with, and
//! how the messages of the validation layer are ranked.

use crate::device::{
    contains_name, name_views, queue_family_indices, QueueFamily, QueueFamilyIndices,
    KHR_SWAPCHAIN_EXTENSION,
};
use crate::error::Error;
use vstd::prelude::*;
use vstd::string::*;

verus! {

/// The layer that checks the use of the API.
pub const VALIDATION_LAYER: &'static str = "VK_LAYER_KHRONOS_validation";

/// The instance extension through which the validation layer reports.
pub const EXT_DEBUG_UTILS_EXTENSION: &'static str = "VK_EXT_debug_utils";

/// An instance extension that portability on macOS needs.
pub const KHR_GET_PHYSICAL_DEVICE_PROPERTIES2_EXTENSION: &'static str =
    "VK_KHR_get_physical_device_properties2";

/// The instance extension that lists portability devices on macOS.
pub const KHR_PORTABILITY_ENUMERATION_EXTENSION: &'static str = "VK_KHR_portability_enumeration";

/// `VK_INSTANCE_CREATE_ENUMERATE_PORTABILITY_BIT_KHR`.
pub const INSTANCE_CREATE_ENUMERATE_PORTABILITY: u32 = 1;

/// `VK_DEBUG_UTILS_MESSAGE_SEVERITY_INFO_BIT_EXT`.
pub const DEBUG_SEVERITY_INFO: u32 = 0x10;

/// `VK_DEBUG_UTILS_MESSAGE_SEVERITY_WARNING_BIT_EXT`.
pub const DEBUG_SEVERITY_WARNING: u32 = 0x100;

/// `VK_DEBUG_UTILS_MESSAGE_SEVERITY_ERROR_BIT_EXT`.
pub const DEBUG_SEVERITY_ERROR: u32 = 0x1000;

/// Every message severity: verbose, info, warning and error.
pub const DEBUG_SEVERITY_ALL: u32 = 0x1111;

/// The message types the renderer listens to: general, validation and
/// performance.
pub const DEBUG_TYPES: u32 = 0x7;

/// The name the application gives itself.
pub const APPLICATION_NAME: &'static str = "Vulkan Test";

/// The name the application gives its engine.
pub const ENGINE_NAME: &'static str = "No Engine";

/// A Vulkan version.
#[derive(Clone, Copy, Debug, PartialEq, Eq, Structural)]
pub struct Version {
    pub major: u32,
    pub minor: u32,
    pub patch: u32,
}

impl Version {
    /// Whether this version is `other` or a later one: versions are
    /// ordered by major, then minor, then patch number.
    pub open spec fn at_least(self, other: Version) -> bool {
        ||| self.major > other.major
        ||| self.major == other.major && self.minor > other.minor
        ||| self.major == other.major && self.minor == other.minor && self.patch >= other.patch
    }

    /// Whether this version is `other` or a later one.
    pub fn is_at_least(&self, other: Version) -> (r: bool)
        ensures
            r == self.at_least(other),
    {
        self.major > other.major || (self.major == other.major && (self.minor > other.minor || (
        self.minor == other.minor && self.patch >= other.patch)))
    }
}

/// The first loader version on macOS that asks for the portability
/// extensions: 1.3.216.
pub open spec fn portability_macos_version() -> Version {
    Version { major: 1, minor: 3, patch: 216 }
}

/// A version as Vulkan packs it into 32 bits: the major number from bit 22
/// up, the minor number from bit 12 up, the patch number below.
pub open spec fn version_number(major: u32, minor: u32, patch: u32) -> u32 {
    (major << 22u32) | (minor << 12u32) | patch
}

/// `vulkanalia::vk::make_version` packs a version into 32 bits. Its body is
/// the one expression `(major << 22) | (minor << 12) | patch`, which this
/// contract repeats; it cannot panic.
pub assume_specification[ vulkanalia::vk::make_version ](
    major: u32,
    minor: u32,
    patch: u32,
) -> (version: u32)
    ensures
        version == version_number(major, minor, patch),
;

/// Version 1.0.0, packed, is 1 shifted to bit 22.
pub proof fn lemma_version_one()
    ensures
        version_number(1, 0, 0) == 0x40_0000,
{
    assert((1u32 << 22u32) | (0u32 << 12u32) | 0u32 == 0x40_0000u32) by (bit_vector);
}

/// Which messages the debug messenger passes on.
#[derive(Clone, Copy, Debug, PartialEq, Eq, Structural)]
pub struct DebugMessengerCreateInfo {
    pub message_severity: u32,
    pub message_type: u32,
}

/// What the instance is created with.
#[derive(Debug, PartialEq, Eq)]
pub struct InstanceCreateInfo {
    pub application_name: &'static str,
    pub application_version: u32,
    pub engine_name: &'static str,
    pub engine_version: u32,
    pub api_version: u32,
    pub layers: Vec<String>,
    pub extensions: Vec<String>,
    pub flags: u32,
    /// The debug messenger that watches the creation of the instance
    /// itself, where validation is on.
    pub debug_messenger: Option<DebugMessengerCreateInfo>,
}

/// The mathematical content of an [`InstanceCreateInfo`].
pub struct InstanceCreateInfoView {
    pub application_name: Seq<char>,
    pub application_version: u32,
    pub engine_name: Seq<char>,
    pub engine_version: u32,
    pub api_version: u32,
    pub layers: Seq<Seq<char>>,
    pub extensions: Seq<Seq<char>>,
    pub flags: u32,
    pub debug_messenger: Option<DebugMessengerCreateInfo>,
}

impl View for InstanceCreateInfo {
    type V = InstanceCreateInfoView;

    open spec fn view(&self) -> InstanceCreateInfoView {
        InstanceCreateInfoView {
            application_name: self.application_name@,
            application_version: self.application_version,
            engine_name: self.engine_name@,
            engine_version: self.engine_version,
            api_version: self.api_version,
            layers: name_views(self.layers@),
            extensions: name_views(self.extensions@),
            flags: self.flags,
            debug_messenger: self.debug_messenger,
        }
    }
}

/// Whether the portability extensions are asked for: on macOS, from loader
/// version 1.3.216 on. `macos_loader` is `None` on every other system.
pub open spec fn wants_portability(macos_loader: Option<Result<Version, i32>>) -> bool {
    macos_loader matches Some(Ok(version)) && version.at_least(portability_macos_version())
}

/// The layers to enable: the validation layer, where validation is on.
pub open spec fn enabled_layers(validation: bool) -> Seq<Seq<char>> {
    if validation {
        seq![VALIDATION_LAYER@]
    } else {
        Seq::empty()
    }
}

/// The instance extensions to enable: those the window system needs; the
/// debug utilities, where validation is on; the two portability
/// extensions, where portability is asked for.
pub open spec fn instance_extensions(
    window_extensions: Seq<Seq<char>>,
    validation: bool,
    portability: bool,
) -> Seq<Seq<char>> {
    window_extensions + (if validation {
        seq![EXT_DEBUG_UTILS_EXTENSION@]
    } else {
        Seq::empty()
    }) + (if portability {
        seq![
            KHR_GET_PHYSICAL_DEVICE_PROPERTIES2_EXTENSION@,
            KHR_PORTABILITY_ENUMERATION_EXTENSION@,
        ]
    } else {
        Seq::empty()
    })
}

/// What the instance is created with, or why it cannot be created: with
/// validation on, the validation layer must be among the layers on offer;
/// on macOS, the loader must have told its version.
pub open spec fn instance_create_info(
    window_extensions: Seq<Seq<char>>,
    available_layers: Seq<Seq<char>>,
    validation: bool,
    macos_loader: Option<Result<Version, i32>>,
) -> Result<InstanceCreateInfoView, Error> {
    if validation && !available_layers.contains(VALIDATION_LAYER@) {
        Err(Error::ValidationLayerUnavailable)
    } else {
        match macos_loader {
            Some(Err(code)) => Err(Error::Vulkan(code)),
            _ => {
                let portability = wants_portability(macos_loader);
                Ok(
                    InstanceCreateInfoView {
                        application_name: APPLICATION_NAME@,
                        application_version: version_number(1, 0, 0),
                        engine_name: ENGINE_NAME@,
                        engine_version: version_number(1, 0, 0),
                        api_version: version_number(1, 0, 0),
                        layers: enabled_layers(validation),
                        extensions: instance_extensions(
                            window_extensions,
                            validation,
                            portability,
                        ),
                        flags: if portability {
                            INSTANCE_CREATE_ENUMERATE_PORTABILITY
                        } else {
                            0
                        },
                        debug_messenger: if validation {
                            Some(
                                DebugMessengerCreateInfo {
                                    message_severity: DEBUG_SEVERITY_ALL,
                                    message_type: DEBUG_TYPES,
                                },
                            )
                        } else {
                            None
                        },
                    },
                )
            },
        }
    }
}

/// A copy of a list of names.
fn copy_names(names: &Vec<String>) -> (copy: Vec<String>)
    ensures
        name_views(copy@) == name_views(names@),
{
    let mut copy: Vec<String> = Vec::new();
    let mut i: usize = 0;
    while i < names.len()
        invariant
            i <= names.len(),
            copy.len() == i,
            forall|j: int| 0 <= j < i ==> copy@[j]@ == names@[j]@,
        decreases names.len() - i,
    {
        copy.push(names[i].clone());
        i += 1;
    }
    assert(name_views(copy@) =~= name_views(names@));
    copy
}

/// Appends a name to a list of names.
fn push_name(names: &mut Vec<String>, name: &str)
    ensures
        name_views(final(names)@) == name_views(old(names)@).push(name@),
{
    names.push(String::from_str(name));
    assert(name_views(names@) =~= name_views(old(names)@).push(name@));
}

/// The layers to enable.
fn layers_for(validation: bool) -> (layers: Vec<String>)
    ensures
        name_views(layers@) == enabled_layers(validation),
{
    let mut layers: Vec<String> = Vec::new();
    assert(name_views(layers@) =~= Seq::empty());
    if validation {
        push_name(&mut layers, VALIDATION_LAYER);
        assert(name_views(layers@) =~= seq![VALIDATION_LAYER@]);
    }
    layers
}

/// Works out what the instance is to be created with.
///
/// `window_extensions` are the instance extensions that the window system
/// needs, `available_layers` the layers on offer, `macos_loader` the
/// loader's version (or the error code of asking for it) on macOS and
/// `None` elsewhere.
pub fn create_instance(
    window_extensions: &Vec<String>,
    available_layers: &Vec<String>,
    validation: bool,
    macos_loader: Option<Result<Version, i32>>,
) -> (r: Result<InstanceCreateInfo, Error>)
    ensures
        match instance_create_info(
            name_views(window_extensions@),
            name_views(available_layers@),
            validation,
            macos_loader,
        ) {
            Ok(info) => r matches Ok(made) && made@ == info,
            Err(error) => r matches Err(e) && e == error,
        },
{
    let mut extensions = copy_names(window_extensions);
    if validation {
        push_name(&mut extensions, EXT_DEBUG_UTILS_EXTENSION);
    }
    if validation && !contains_name(available_layers, VALIDATION_LAYER) {
        return Err(Error::ValidationLayerUnavailable);
    }
    let layers = layers_for(validation);
    let portability = match macos_loader {
        None => false,
        Some(Err(code)) => {
            return Err(Error::Vulkan(code));
        },
        Some(Ok(version)) => version.is_at_least(Version { major: 1, minor: 3, patch: 216 }),
    };
    let flags = if portability {
        push_name(&mut extensions, KHR_GET_PHYSICAL_DEVICE_PROPERTIES2_EXTENSION);
        push_name(&mut extensions, KHR_PORTABILITY_ENUMERATION_EXTENSION);
        INSTANCE_CREATE_ENUMERATE_PORTABILITY
    } else {
        0
    };
    assert(name_views(extensions@) =~= instance_extensions(
        name_views(window_extensions@),
        validation,
        portability,
    ));
    let debug_messenger = if validation {
        Some(
            DebugMessengerCreateInfo {
                message_severity: DEBUG_SEVERITY_ALL,
                message_type: DEBUG_TYPES,
            },
        )
    } else {
        None
    };
    Ok(
        InstanceCreateInfo {
            application_name: APPLICATION_NAME,
            application_version: vulkanalia::vk::make_version(1, 0, 0),
            engine_name: ENGINE_NAME,
            engine_version: vulkanalia::vk::make_version(1, 0, 0),
            api_version: vulkanalia::vk::make_version(1, 0, 0),
            layers,
            extensions,
            flags,
            debug_messenger,
        },
    )
}

/// What the logical device is created with.
#[derive(Debug, PartialEq, Eq)]
pub struct DeviceCreateInfo {
    /// The families of the graphics and of the presentation queue.
    pub indices: QueueFamilyIndices,
    /// The families in which a queue is created: each of the two once.
    pub queue_families: Vec<u32>,
    pub layers: Vec<String>,
    pub extensions: Vec<String>,
}

/// The mathematical content of a [`DeviceCreateInfo`].
pub struct DeviceCreateInfoView {
    pub indices: QueueFamilyIndices,
    pub queue_families: Seq<u32>,
    pub layers: Seq<Seq<char>>,
    pub extensions: Seq<Seq<char>>,
}

impl View for DeviceCreateInfo {
    type V = DeviceCreateInfoView;

    open spec fn view(&self) -> DeviceCreateInfoView {
        DeviceCreateInfoView {
            indices: self.indices,
            queue_families: self.queue_families@,
            layers: name_views(self.layers@),
            extensions: name_views(self.extensions@),
        }
    }
}

/// The graphics family and the presentation family, without repetition.
pub open spec fn unique_families(indices: QueueFamilyIndices) -> Seq<u32> {
    if indices.graphics == indices.present {
        seq![indices.graphics]
    } else {
        seq![indices.graphics, indices.present]
    }
}

/// What the logical device is created with: one queue in each of the
/// families used, the validation layer where validation is on, and the
/// swapchain extension.
pub open spec fn device_create_info(families: Seq<QueueFamily>, validation: bool) -> Result<
    DeviceCreateInfoView,
    Error,
> {
    match queue_family_indices(families) {
        Err(error) => Err(error),
        Ok(indices) => Ok(
            DeviceCreateInfoView {
                indices,
                queue_families: unique_families(indices),
                layers: enabled_layers(validation),
                extensions: seq![KHR_SWAPCHAIN_EXTENSION@],
            },
        ),
    }
}

/// Works out what the logical device is to be created with.
pub fn create_logical_device(families: &Vec<QueueFamily>, validation: bool) -> (r: Result<
    DeviceCreateInfo,
    Error,
>)
    requires
        families.len() <= u32::MAX,
    ensures
        match device_create_info(families@, validation) {
            Ok(info) => r matches Ok(made) && made@ == info,
            Err(error) => r matches Err(e) && e == error,
        },
{
    let indices = match QueueFamilyIndices::get(families) {
        Ok(indices) => indices,
        Err(error) => {
            return Err(error);
        },
    };
    let mut queue_families: Vec<u32> = Vec::new();
    queue_families.push(indices.graphics);
    if indices.present != indices.graphics {
        queue_families.push(indices.present);
    }
    assert(queue_families@ =~= unique_families(indices));
    let layers = layers_for(validation);
    let mut extensions: Vec<String> = Vec::new();
    assert(name_views(extensions@) =~= Seq::empty());
    push_name(&mut extensions, KHR_SWAPCHAIN_EXTENSION);
    assert(name_views(extensions@) =~= seq![KHR_SWAPCHAIN_EXTENSION@]);
    Ok(DeviceCreateInfo { indices, queue_families, layers, extensions })
}

/// In the families of a device's queues nothing occurs twice, and both the
/// graphics and the presentation family occur.
pub proof fn lemma_unique_families(indices: QueueFamilyIndices)
    ensures
        unique_families(indices).no_duplicates(),
        unique_families(indices).contains(indices.graphics),
        unique_families(indices).contains(indices.present),
{
    let s = unique_families(indices);
    assert(s[0] == indices.graphics);
    if indices.graphics != indices.present {
        assert(s[1] == indices.present);
    }
}

/// How loud a message of the validation layer is.
#[derive(Clone, Copy, Debug, PartialEq, Eq, Structural)]
pub enum LogLevel {
    Error,
    Warn,
    Info,
    Trace,
}

/// The level of a message, by its severity flags compared as numbers: from
/// the error bit up an error, from the warning bit up a warning, from the
/// info bit up information, below that a trace.
pub open spec fn message_level(severity: u32) -> LogLevel {
    if severity >= DEBUG_SEVERITY_ERROR {
        LogLevel::Error
    } else if severity >= DEBUG_SEVERITY_WARNING {
        LogLevel::Warn
    } else if severity >= DEBUG_SEVERITY_INFO {
        LogLevel::Info
    } else {
        LogLevel::Trace
    }
}

/// Ranks a message of the validation layer by its severity flags.
pub fn debug_callback(severity: u32) -> (level: LogLevel)
    ensures
        level == message_level(severity),
{
    if severity >= DEBUG_SEVERITY_ERROR {
        LogLevel::Error
    } else if severity >= DEBUG_SEVERITY_WARNING {
        LogLevel::Warn
    } else if severity >= DEBUG_SEVERITY_INFO {
        LogLevel::Info
    } else {
        LogLevel::Trace
    }
}

} // verus!
