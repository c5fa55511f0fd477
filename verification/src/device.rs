//! Choosing a physical device and its queue families, and what the
//! instance and the logical device are created with.

use crate::data::{AppData, AppDataView};
use crate::error::{
    Error, SuitabilityError, INSUFFICIENT_SWAPCHAIN_SUPPORT, MISSING_DEVICE_EXTENSIONS,
    MISSING_GEOMETRY_SHADER, MISSING_QUEUE_FAMILIES, UNSUPPORTED_DEVICE_TYPE,
};
use crate::search::{
    is_least, least, lemma_least_absent, lemma_least_found, lemma_least_is_least,
};
use crate::surface::{SwapchainSupport, SwapchainSupportView};
use vstd::prelude::*;
use vstd::string::*;

verus! {

/// `VK_QUEUE_GRAPHICS_BIT`.
pub const QUEUE_GRAPHICS: u32 = 1;

/// `VK_PHYSICAL_DEVICE_TYPE_INTEGRATED_GPU`.
pub const DEVICE_TYPE_INTEGRATED_GPU: i32 = 1;

/// `VK_PHYSICAL_DEVICE_TYPE_DISCRETE_GPU`.
pub const DEVICE_TYPE_DISCRETE_GPU: i32 = 2;

/// The device extension that swapchains need.
pub const KHR_SWAPCHAIN_EXTENSION: &'static str = "VK_KHR_swapchain";

/// One queue family of a physical device: its capability flags, and the
/// answer to the question whether it can present to the surface (a Vulkan
/// error code where the question itself failed).
#[derive(Clone, Copy, Debug, PartialEq, Eq)]
pub struct QueueFamily {
    pub flags: u32,
    pub present_support: Result<bool, i32>,
}

/// The queue families the renderer submits to.
#[derive(Clone, Copy, Debug, PartialEq, Eq, Structural)]
pub struct QueueFamilyIndices {
    pub graphics: u32,
    pub present: u32,
}

/// Whether a family can take graphics work.
pub open spec fn has_graphics(family: QueueFamily) -> bool {
    family.flags & QUEUE_GRAPHICS == QUEUE_GRAPHICS
}

/// Whether the search for a presenting family ends at this family: it
/// presents, or asking it failed.
pub open spec fn ends_present_search(family: QueueFamily) -> bool {
    family.present_support != Ok::<bool, i32>(false)
}

/// The first family with graphics capability.
pub open spec fn graphics_family(families: Seq<QueueFamily>) -> Option<int> {
    least(families.len() as int, |i: int| has_graphics(families[i]))
}

/// The family at which the search for a presenting family ends.
pub open spec fn present_search_end(families: Seq<QueueFamily>) -> Option<int> {
    least(families.len() as int, |i: int| ends_present_search(families[i]))
}

/// The outcome of looking for a graphics and a presenting family: the first
/// of each kind; the error code of a failed question that was reached
/// before any presenting family; or the refusal where one kind is missing.
pub open spec fn queue_family_indices(families: Seq<QueueFamily>) -> Result<
    QueueFamilyIndices,
    Error,
> {
    match present_search_end(families) {
        Some(p) => match families[p].present_support {
            Err(code) => Err(Error::Vulkan(code)),
            Ok(_) => match graphics_family(families) {
                Some(g) => Ok(QueueFamilyIndices { graphics: g as u32, present: p as u32 }),
                None => Err(Error::Unsuitable(SuitabilityError(MISSING_QUEUE_FAMILIES))),
            },
        },
        None => Err(Error::Unsuitable(SuitabilityError(MISSING_QUEUE_FAMILIES))),
    }
}

/// The first family with graphics capability.
fn find_graphics_family(families: &Vec<QueueFamily>) -> (found: Option<u32>)
    requires
        families.len() <= u32::MAX,
    ensures
        match found {
            Some(g) => graphics_family(families@) == Some(g as int),
            None => graphics_family(families@).is_none(),
        },
{
    let ghost p = |i: int| has_graphics(families@[i]);
    let mut i: usize = 0;
    while i < families.len()
        invariant
            i <= families.len() <= u32::MAX,
            p == |i: int| has_graphics(families@[i]),
            forall|j: int| 0 <= j < i ==> !#[trigger] p(j),
        decreases families.len() - i,
    {
        if families[i].flags & QUEUE_GRAPHICS == QUEUE_GRAPHICS {
            proof {
                assert(p(i as int));
                lemma_least_found(families@.len() as int, p, i as int);
            }
            return Some(i as u32);
        }
        assert(!p(i as int));
        i += 1;
    }
    proof {
        lemma_least_absent(families@.len() as int, p);
    }
    None
}

impl QueueFamilyIndices {
    /// Looks for the queue families to use among those of a physical
    /// device.
    pub fn get(families: &Vec<QueueFamily>) -> (r: Result<Self, Error>)
        requires
            families.len() <= u32::MAX,
        ensures
            r == queue_family_indices(families@),
    {
        let graphics = find_graphics_family(families);
        let ghost p = |i: int| ends_present_search(families@[i]);
        let mut present: Option<u32> = None;
        let mut i: usize = 0;
        while i < families.len()
            invariant_except_break
                i <= families.len() <= u32::MAX,
                present.is_none(),
            invariant
                p == |i: int| ends_present_search(families@[i]),
                forall|j: int| 0 <= j < i ==> !#[trigger] p(j),
            ensures
                match present {
                    Some(found) => is_least(families@.len() as int, p, found as int)
                        && families@[found as int].present_support == Ok::<bool, i32>(true),
                    None => i == families.len(),
                },
            decreases families.len() - i,
        {
            match families[i].present_support {
                Err(code) => {
                    proof {
                        assert(p(i as int));
                        lemma_least_found(families@.len() as int, p, i as int);
                    }
                    return Err(Error::Vulkan(code));
                },
                Ok(supported) => {
                    if supported {
                        assert(p(i as int));
                        present = Some(i as u32);
                        break ;
                    }
                },
            }
            assert(!p(i as int));
            i += 1;
        }
        proof {
            match present {
                Some(found) => {
                    lemma_least_found(families@.len() as int, p, found as int);
                },
                None => {
                    lemma_least_absent(families@.len() as int, p);
                },
            }
        }
        match (graphics, present) {
            (Some(graphics), Some(present)) => Ok(Self { graphics, present }),
            _ => Err(Error::Unsuitable(SuitabilityError(MISSING_QUEUE_FAMILIES))),
        }
    }
}

/// What the chosen queue families are: the graphics family is the first
/// family with graphics capability; the presentation family is the first
/// that can present, and asking each family before it succeeded. Where the
/// outcome is a Vulkan error code, it is that of the first question that
/// failed, and no family before it can present. Where the outcome is a
/// refusal, no family has graphics capability or none can present.
pub proof fn lemma_queue_families_first_of_each_kind(families: Seq<QueueFamily>)
    requires
        families.len() <= u32::MAX,
    ensures
        match queue_family_indices(families) {
            Ok(indices) => {
                &&& indices.graphics < families.len()
                &&& has_graphics(families[indices.graphics as int])
                &&& forall|i: int| 0 <= i < indices.graphics ==> !has_graphics(families[i])
                &&& indices.present < families.len()
                &&& families[indices.present as int].present_support == Ok::<bool, i32>(true)
                &&& forall|i: int|
                    0 <= i < indices.present ==> (#[trigger] families[i]).present_support == Ok::<
                        bool,
                        i32,
                    >(false)
            },
            Err(Error::Vulkan(code)) => exists|k: int|
                {
                    &&& 0 <= k < families.len()
                    &&& (#[trigger] families[k]).present_support == Err::<bool, i32>(code)
                    &&& forall|i: int|
                        0 <= i < k ==> (#[trigger] families[i]).present_support == Ok::<bool, i32>(
                            false,
                        )
                },
            Err(error) => {
                &&& error == Error::Unsuitable(SuitabilityError(MISSING_QUEUE_FAMILIES))
                &&& (forall|i: int| 0 <= i < families.len() ==> !has_graphics(families[i]))
                    || (forall|i: int|
                    0 <= i < families.len() ==> (#[trigger] families[i]).present_support == Ok::<
                        bool,
                        i32,
                    >(false))
            },
        },
{
    let n = families.len() as int;
    let graphics = |i: int| has_graphics(families[i]);
    let present = |i: int| ends_present_search(families[i]);
    lemma_least_is_least(n, graphics);
    lemma_least_is_least(n, present);
    match present_search_end(families) {
        Some(p) => {
            assert(present(p));
            assert forall|i: int| 0 <= i < p implies (#[trigger] families[i]).present_support
                == Ok::<bool, i32>(false) by {
                assert(!present(i));
            }
            match families[p].present_support {
                Err(code) => {
                    assert(families[p].present_support == Err::<bool, i32>(code));
                },
                Ok(supported) => {
                    assert(supported);
                    match graphics_family(families) {
                        Some(g) => {
                            assert(graphics(g));
                            assert forall|i: int| 0 <= i < g implies !has_graphics(
                                families[i],
                            ) by {
                                assert(!graphics(i));
                            }
                        },
                        None => {
                            assert forall|i: int| 0 <= i < n implies !has_graphics(
                                families[i],
                            ) by {
                                assert(!graphics(i));
                            }
                        },
                    }
                },
            }
        },
        None => {
            assert forall|i: int| 0 <= i < n implies (#[trigger] families[i]).present_support
                == Ok::<bool, i32>(false) by {
                assert(!present(i));
            }
        },
    }
}

/// The contents of a list of names.
pub open spec fn name_views(names: Seq<String>) -> Seq<Seq<char>> {
    Seq::new(names.len(), |i: int| names[i]@)
}

/// The view of an answer that is either a list of names or a Vulkan error
/// code.
pub open spec fn names_view(names: Result<Vec<String>, i32>) -> Result<Seq<Seq<char>>, i32> {
    match names {
        Ok(names) => Ok(name_views(names@)),
        Err(code) => Err(code),
    }
}

/// The view of an answer that is either what a surface supports or a Vulkan
/// error code.
pub open spec fn support_view(support: Result<SwapchainSupport, i32>) -> Result<
    SwapchainSupportView,
    i32,
> {
    match support {
        Ok(s) => Ok(s@),
        Err(code) => Err(code),
    }
}

/// What was learned of one physical device. Where a question to the device
/// failed, the answer is the Vulkan error code.
#[derive(Debug, PartialEq, Eq)]
pub struct PhysicalDevice {
    pub handle: u64,
    pub device_type: i32,
    pub geometry_shader: bool,
    pub queue_families: Vec<QueueFamily>,
    /// The names of the device extensions on offer.
    pub extensions: Result<Vec<String>, i32>,
    pub swapchain_support: Result<SwapchainSupport, i32>,
}

/// The mathematical content of a [`PhysicalDevice`].
pub struct PhysicalDeviceView {
    pub handle: u64,
    pub device_type: i32,
    pub geometry_shader: bool,
    pub queue_families: Seq<QueueFamily>,
    pub extensions: Result<Seq<Seq<char>>, i32>,
    pub swapchain_support: Result<SwapchainSupportView, i32>,
}

impl View for PhysicalDevice {
    type V = PhysicalDeviceView;

    open spec fn view(&self) -> PhysicalDeviceView {
        PhysicalDeviceView {
            handle: self.handle,
            device_type: self.device_type,
            geometry_shader: self.geometry_shader,
            queue_families: self.queue_families@,
            extensions: names_view(self.extensions),
            swapchain_support: support_view(self.swapchain_support),
        }
    }
}

/// The outcome for the extensions of a device: the error code where asking
/// for them failed; a refusal where the swapchain extension is not among
/// them.
pub open spec fn device_extensions_checked(extensions: Result<Seq<Seq<char>>, i32>) -> Result<
    (),
    Error,
> {
    match extensions {
        Err(code) => Err(Error::Vulkan(code)),
        Ok(names) => if names.contains(KHR_SWAPCHAIN_EXTENSION@) {
            Ok(())
        } else {
            Err(Error::Unsuitable(SuitabilityError(MISSING_DEVICE_EXTENSIONS)))
        },
    }
}

/// Whether the renderer can run on a physical device. The device must
/// have, in this order: queue families for graphics and presentation; the
/// type of a discrete or integrated GPU; geometry shaders; the swapchain
/// extension; at least one surface format and one presentation mode. The
/// outcome is the error of the first requirement that is not met.
pub open spec fn physical_device_checked(device: PhysicalDeviceView) -> Result<(), Error> {
    match queue_family_indices(device.queue_families) {
        Err(error) => Err(error),
        Ok(_) => if device.device_type != DEVICE_TYPE_DISCRETE_GPU && device.device_type
            != DEVICE_TYPE_INTEGRATED_GPU {
            Err(Error::Unsuitable(SuitabilityError(UNSUPPORTED_DEVICE_TYPE)))
        } else if !device.geometry_shader {
            Err(Error::Unsuitable(SuitabilityError(MISSING_GEOMETRY_SHADER)))
        } else {
            match device_extensions_checked(device.extensions) {
                Err(error) => Err(error),
                Ok(_) => match device.swapchain_support {
                    Err(code) => Err(Error::Vulkan(code)),
                    Ok(support) => if support.formats.len() == 0 || support.present_modes.len()
                        == 0 {
                        Err(Error::Unsuitable(SuitabilityError(INSUFFICIENT_SWAPCHAIN_SUPPORT)))
                    } else {
                        Ok(())
                    },
                },
            }
        },
    }
}

/// Whether `wanted` is among `names`.
pub fn contains_name(names: &Vec<String>, wanted: &str) -> (found: bool)
    ensures
        found == name_views(names@).contains(wanted@),
{
    let wanted_name = String::from_str(wanted);
    let mut i: usize = 0;
    while i < names.len()
        invariant
            i <= names.len(),
            wanted_name@ == wanted@,
            forall|j: int| 0 <= j < i ==> name_views(names@)[j] != wanted@,
        decreases names.len() - i,
    {
        if names[i] == wanted_name {
            assert(name_views(names@)[i as int] == wanted@);
            return true;
        }
        i += 1;
    }
    false
}

/// Checks that a physical device offers the extensions the renderer needs.
pub fn check_physical_device_extensions(extensions: &Result<Vec<String>, i32>) -> (r: Result<
    (),
    Error,
>)
    ensures
        r == device_extensions_checked(names_view(*extensions)),
{
    match extensions {
        Err(code) => Err(Error::Vulkan(*code)),
        Ok(names) => {
            if contains_name(names, KHR_SWAPCHAIN_EXTENSION) {
                Ok(())
            } else {
                Err(Error::Unsuitable(SuitabilityError(MISSING_DEVICE_EXTENSIONS)))
            }
        },
    }
}

/// Checks whether the renderer can run on a physical device.
pub fn check_physical_device(device: &PhysicalDevice) -> (r: Result<(), Error>)
    requires
        device.queue_families.len() <= u32::MAX,
    ensures
        r == physical_device_checked(device@),
{
    match QueueFamilyIndices::get(&device.queue_families) {
        Err(error) => {
            return Err(error);
        },
        Ok(_) => {},
    }
    if device.device_type != DEVICE_TYPE_DISCRETE_GPU && device.device_type
        != DEVICE_TYPE_INTEGRATED_GPU {
        return Err(Error::Unsuitable(SuitabilityError(UNSUPPORTED_DEVICE_TYPE)));
    }
    if !device.geometry_shader {
        return Err(Error::Unsuitable(SuitabilityError(MISSING_GEOMETRY_SHADER)));
    }
    match check_physical_device_extensions(&device.extensions) {
        Err(error) => {
            return Err(error);
        },
        Ok(_) => {},
    }
    match &device.swapchain_support {
        Err(code) => Err(Error::Vulkan(*code)),
        Ok(support) => {
            if support.formats.len() == 0 || support.present_modes.len() == 0 {
                Err(Error::Unsuitable(SuitabilityError(INSUFFICIENT_SWAPCHAIN_SUPPORT)))
            } else {
                Ok(())
            }
        },
    }
}

/// The contents of a list of physical devices.
pub open spec fn device_views(devices: Seq<PhysicalDevice>) -> Seq<PhysicalDeviceView> {
    Seq::new(devices.len(), |i: int| devices[i]@)
}

/// The first physical device that passes the check.
pub open spec fn picked_device(devices: Seq<PhysicalDeviceView>) -> Option<int> {
    least(devices.len() as int, |i: int| physical_device_checked(devices[i]).is_ok())
}

/// Picks the first physical device that passes the check and records its
/// handle. Without such a device the record stays as it is.
pub fn pick_physical_device(devices: &Vec<PhysicalDevice>, data: &mut AppData) -> (r: Result<
    (),
    Error,
>)
    requires
        forall|i: int| 0 <= i < devices.len() ==> devices[i].queue_families.len() <= u32::MAX,
    ensures
        match picked_device(device_views(devices@)) {
            Some(i) => r.is_ok() && final(data)@ == (AppDataView {
                physical_device: devices[i].handle,
                ..old(data)@
            }),
            None => r == Err::<(), Error>(Error::NoSuitableDevice) && final(data)@ == old(
                data,
            )@,
        },
{
    let ghost views = device_views(devices@);
    let ghost p = |i: int| physical_device_checked(device_views(devices@)[i]).is_ok();
    let mut i: usize = 0;
    while i < devices.len()
        invariant
            i <= devices.len(),
            *data == *old(data),
            views == device_views(devices@),
            p == |i: int| physical_device_checked(device_views(devices@)[i]).is_ok(),
            forall|j: int| 0 <= j < devices.len() ==> devices[j].queue_families.len() <= u32::MAX,
            forall|j: int| 0 <= j < i ==> !#[trigger] p(j),
        decreases devices.len() - i,
    {
        match check_physical_device(&devices[i]) {
            Ok(_) => {
                proof {
                    assert(p(i as int));
                    lemma_least_found(views.len() as int, p, i as int);
                }
                data.physical_device = devices[i].handle;
                return Ok(());
            },
            Err(_) => {
                assert(!p(i as int));
            },
        }
        i += 1;
    }
    proof {
        lemma_least_absent(views.len() as int, p);
    }
    Err(Error::NoSuitableDevice)
}

} // verus!
