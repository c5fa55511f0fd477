use vk_triangle::command;
use vk_triangle::descriptor;
use vk_triangle::device;
use vk_triangle::instance;
use vk_triangle::surface;
use vk_triangle::vertex;
use vulkanalia::vk;
use vulkanalia::vk::Handle;

#[test]
fn surface_numbers_are_those_of_vulkan() {
    assert_eq!(surface::FORMAT_B8G8R8A8_SRGB, vk::Format::B8G8R8A8_SRGB.as_raw());
    assert_eq!(surface::COLOR_SPACE_SRGB_NONLINEAR, vk::ColorSpaceKHR::SRGB_NONLINEAR.as_raw());
    assert_eq!(surface::PRESENT_MODE_MAILBOX, vk::PresentModeKHR::MAILBOX.as_raw());
    assert_eq!(surface::PRESENT_MODE_FIFO, vk::PresentModeKHR::FIFO.as_raw());
    assert_eq!(surface::EXTENT_UNDEFINED, u32::MAX);
}

#[test]
fn command_numbers_are_those_of_vulkan() {
    assert_eq!(command::NULL_HANDLE, vk::Fence::null().as_raw());
    assert_eq!(command::NULL_HANDLE, vk::SwapchainKHR::null().as_raw());
    assert_eq!(command::NO_TIMEOUT, u64::MAX);
    assert_eq!(command::IMAGE_USAGE_COLOR_ATTACHMENT, vk::ImageUsageFlags::COLOR_ATTACHMENT.bits());
    assert_eq!(command::SHARING_MODE_EXCLUSIVE, vk::SharingMode::EXCLUSIVE.as_raw());
    assert_eq!(command::SHARING_MODE_CONCURRENT, vk::SharingMode::CONCURRENT.as_raw());
    assert_eq!(command::COMPOSITE_ALPHA_OPAQUE, vk::CompositeAlphaFlagsKHR::OPAQUE.bits());
    assert_eq!(command::COMPONENT_SWIZZLE_IDENTITY, vk::ComponentSwizzle::IDENTITY.as_raw());
    assert_eq!(command::IMAGE_ASPECT_COLOR, vk::ImageAspectFlags::COLOR.bits());
    assert_eq!(command::IMAGE_VIEW_TYPE_2D, vk::ImageViewType::_2D.as_raw());
    assert_eq!(
        command::PIPELINE_STAGE_COLOR_ATTACHMENT_OUTPUT,
        vk::PipelineStageFlags::COLOR_ATTACHMENT_OUTPUT.bits()
    );
    assert_eq!(command::ERROR_OUT_OF_DATE, vk::ErrorCode::OUT_OF_DATE_KHR.as_raw());
}

#[test]
fn device_numbers_are_those_of_vulkan() {
    assert_eq!(device::QUEUE_GRAPHICS, vk::QueueFlags::GRAPHICS.bits());
    assert_eq!(device::DEVICE_TYPE_INTEGRATED_GPU, vk::PhysicalDeviceType::INTEGRATED_GPU.as_raw());
    assert_eq!(device::DEVICE_TYPE_DISCRETE_GPU, vk::PhysicalDeviceType::DISCRETE_GPU.as_raw());
    assert_eq!(
        device::KHR_SWAPCHAIN_EXTENSION,
        vk::KHR_SWAPCHAIN_EXTENSION.name.to_string_lossy()
    );
}

#[test]
fn instance_numbers_are_those_of_vulkan() {
    assert_eq!(
        instance::EXT_DEBUG_UTILS_EXTENSION,
        vk::EXT_DEBUG_UTILS_EXTENSION.name.to_string_lossy()
    );
    assert_eq!(
        instance::KHR_GET_PHYSICAL_DEVICE_PROPERTIES2_EXTENSION,
        vk::KHR_GET_PHYSICAL_DEVICE_PROPERTIES2_EXTENSION.name.to_string_lossy()
    );
    assert_eq!(
        instance::KHR_PORTABILITY_ENUMERATION_EXTENSION,
        vk::KHR_PORTABILITY_ENUMERATION_EXTENSION.name.to_string_lossy()
    );
    assert_eq!(
        instance::INSTANCE_CREATE_ENUMERATE_PORTABILITY,
        vk::InstanceCreateFlags::ENUMERATE_PORTABILITY_KHR.bits()
    );
    assert_eq!(instance::DEBUG_SEVERITY_INFO, vk::DebugUtilsMessageSeverityFlagsEXT::INFO.bits());
    assert_eq!(
        instance::DEBUG_SEVERITY_WARNING,
        vk::DebugUtilsMessageSeverityFlagsEXT::WARNING.bits()
    );
    assert_eq!(instance::DEBUG_SEVERITY_ERROR, vk::DebugUtilsMessageSeverityFlagsEXT::ERROR.bits());
    assert_eq!(instance::DEBUG_SEVERITY_ALL, vk::DebugUtilsMessageSeverityFlagsEXT::all().bits());
    assert_eq!(
        instance::DEBUG_TYPES,
        (vk::DebugUtilsMessageTypeFlagsEXT::GENERAL
            | vk::DebugUtilsMessageTypeFlagsEXT::VALIDATION
            | vk::DebugUtilsMessageTypeFlagsEXT::PERFORMANCE)
            .bits()
    );
}

#[test]
fn vertex_numbers_are_those_of_vulkan() {
    assert_eq!(vertex::FORMAT_R32G32_SFLOAT, vk::Format::R32G32_SFLOAT.as_raw());
    assert_eq!(vertex::FORMAT_R32G32B32_SFLOAT, vk::Format::R32G32B32_SFLOAT.as_raw());
    assert_eq!(vertex::VERTEX_INPUT_RATE_VERTEX, vk::VertexInputRate::VERTEX.as_raw());
    assert_eq!(vertex::BUFFER_USAGE_TRANSFER_SRC, vk::BufferUsageFlags::TRANSFER_SRC.bits());
    assert_eq!(vertex::BUFFER_USAGE_TRANSFER_DST, vk::BufferUsageFlags::TRANSFER_DST.bits());
    assert_eq!(vertex::BUFFER_USAGE_VERTEX_BUFFER, vk::BufferUsageFlags::VERTEX_BUFFER.bits());
    assert_eq!(vertex::MEMORY_PROPERTY_DEVICE_LOCAL, vk::MemoryPropertyFlags::DEVICE_LOCAL.bits());
    assert_eq!(vertex::MEMORY_PROPERTY_HOST_VISIBLE, vk::MemoryPropertyFlags::HOST_VISIBLE.bits());
    assert_eq!(
        vertex::MEMORY_PROPERTY_HOST_COHERENT,
        vk::MemoryPropertyFlags::HOST_COHERENT.bits()
    );
    assert_eq!(vertex::MAX_MEMORY_TYPES, vk::MAX_MEMORY_TYPES);
}

#[test]
fn descriptor_numbers_are_those_of_vulkan() {
    assert_eq!(
        descriptor::DESCRIPTOR_TYPE_UNIFORM_BUFFER,
        vk::DescriptorType::UNIFORM_BUFFER.as_raw()
    );
    assert_eq!(descriptor::SHADER_STAGE_VERTEX, vk::ShaderStageFlags::VERTEX.bits());
}
