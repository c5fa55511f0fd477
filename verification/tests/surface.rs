use vk_triangle::surface::{
    get_swapchain_extent, get_swapchain_image_count, get_swapchain_present_mode,
    get_swapchain_surface_format, Extent2D, SurfaceCapabilities, SurfaceFormat,
    SwapchainSupport, COLOR_SPACE_SRGB_NONLINEAR, EXTENT_UNDEFINED, FORMAT_B8G8R8A8_SRGB,
    PRESENT_MODE_FIFO, PRESENT_MODE_MAILBOX,
};

const FORMAT_R8G8B8A8_UNORM: i32 = 37;
const COLOR_SPACE_EXTENDED_SRGB_LINEAR: i32 = 1000104002;
const PRESENT_MODE_IMMEDIATE: i32 = 0;

fn extent(width: u32, height: u32) -> Extent2D {
    Extent2D { width, height }
}

fn capabilities(
    min_image_count: u32,
    max_image_count: u32,
    current: Extent2D,
    min: Extent2D,
    max: Extent2D,
) -> SurfaceCapabilities {
    SurfaceCapabilities {
        min_image_count,
        max_image_count,
        current_extent: current,
        min_image_extent: min,
        max_image_extent: max,
        supported_transforms: 1,
        current_transform: 1,
    }
}

fn rgba_linear() -> SurfaceFormat {
    SurfaceFormat { format: FORMAT_R8G8B8A8_UNORM, color_space: COLOR_SPACE_EXTENDED_SRGB_LINEAR }
}

fn bgra_srgb() -> SurfaceFormat {
    SurfaceFormat { format: FORMAT_B8G8R8A8_SRGB, color_space: COLOR_SPACE_SRGB_NONLINEAR }
}

#[test]
fn format_prefers_bgra_srgb_wherever_it_stands() {
    assert_eq!(get_swapchain_surface_format(&vec![rgba_linear(), bgra_srgb()]), bgra_srgb());
    assert_eq!(get_swapchain_surface_format(&vec![bgra_srgb(), rgba_linear()]), bgra_srgb());
}

#[test]
fn format_falls_back_to_first_entry() {
    assert_eq!(get_swapchain_surface_format(&vec![rgba_linear()]), rgba_linear());
    let other = SurfaceFormat { format: 44, color_space: COLOR_SPACE_SRGB_NONLINEAR };
    assert_eq!(get_swapchain_surface_format(&vec![other, rgba_linear()]), other);
}

#[test]
fn format_needs_both_format_and_colour_space() {
    let bgra_linear =
        SurfaceFormat { format: FORMAT_B8G8R8A8_SRGB, color_space: COLOR_SPACE_EXTENDED_SRGB_LINEAR };
    let rgba_srgb =
        SurfaceFormat { format: FORMAT_R8G8B8A8_UNORM, color_space: COLOR_SPACE_SRGB_NONLINEAR };
    assert_eq!(get_swapchain_surface_format(&vec![rgba_srgb, bgra_linear]), rgba_srgb);
}

#[test]
fn present_mode_prefers_mailbox() {
    assert_eq!(
        get_swapchain_present_mode(&vec![PRESENT_MODE_FIFO, PRESENT_MODE_MAILBOX]),
        PRESENT_MODE_MAILBOX
    );
}

#[test]
fn present_mode_falls_back_to_fifo() {
    assert_eq!(get_swapchain_present_mode(&vec![PRESENT_MODE_FIFO]), PRESENT_MODE_FIFO);
    assert_eq!(get_swapchain_present_mode(&vec![PRESENT_MODE_IMMEDIATE]), PRESENT_MODE_FIFO);
    assert_eq!(get_swapchain_present_mode(&vec![]), PRESENT_MODE_FIFO);
}

#[test]
fn extent_of_the_surface_wins_over_the_window() {
    let caps = capabilities(2, 0, extent(800, 600), extent(1, 1), extent(4096, 4096));
    assert_eq!(get_swapchain_extent(extent(1920, 1080), caps), extent(800, 600));
    assert_eq!(get_swapchain_extent(extent(1, 1), caps), extent(800, 600));
}

#[test]
fn extent_follows_the_window_when_the_surface_has_none() {
    let caps = capabilities(2, 0, extent(EXTENT_UNDEFINED, EXTENT_UNDEFINED), extent(1, 1), extent(4096, 4096));
    assert_eq!(get_swapchain_extent(extent(1920, 1080), caps), extent(1920, 1080));
}

#[test]
fn extent_is_clamped_per_axis() {
    let caps = capabilities(2, 0, extent(EXTENT_UNDEFINED, 0), extent(100, 200), extent(4096, 2048));
    assert_eq!(get_swapchain_extent(extent(5000, 3000), caps), extent(4096, 2048));
    assert_eq!(get_swapchain_extent(extent(5000, 300), caps), extent(4096, 300));
    assert_eq!(get_swapchain_extent(extent(10, 20), caps), extent(100, 200));
    assert_eq!(get_swapchain_extent(extent(100, 2048), caps), extent(100, 2048));
}

#[test]
fn extent_sentinel_is_read_from_the_width_only() {
    let caps = capabilities(2, 0, extent(640, EXTENT_UNDEFINED), extent(1, 1), extent(4096, 4096));
    assert_eq!(get_swapchain_extent(extent(1920, 1080), caps), extent(640, EXTENT_UNDEFINED));
}

#[test]
fn image_count_is_one_more_than_minimum_without_upper_bound() {
    let caps = capabilities(2, 0, extent(800, 600), extent(1, 1), extent(4096, 4096));
    assert_eq!(get_swapchain_image_count(caps), 3);
}

#[test]
fn image_count_is_clamped_to_the_maximum() {
    let at = capabilities(2, 3, extent(800, 600), extent(1, 1), extent(4096, 4096));
    assert_eq!(get_swapchain_image_count(at), 3);
    let tight = capabilities(2, 2, extent(800, 600), extent(1, 1), extent(4096, 4096));
    assert_eq!(get_swapchain_image_count(tight), 2);
    let wide = capabilities(1, 8, extent(800, 600), extent(1, 1), extent(4096, 4096));
    assert_eq!(get_swapchain_image_count(wide), 2);
    let top = capabilities(u32::MAX, 5, extent(800, 600), extent(1, 1), extent(4096, 4096));
    assert_eq!(get_swapchain_image_count(top), 5);
}

#[test]
fn support_is_put_together_from_three_answers() {
    let caps = capabilities(2, 0, extent(800, 600), extent(1, 1), extent(4096, 4096));
    let support =
        SwapchainSupport::get(Ok(caps), Ok(vec![bgra_srgb()]), Ok(vec![PRESENT_MODE_FIFO]));
    assert_eq!(
        support,
        Ok(SwapchainSupport {
            capabilities: caps,
            formats: vec![bgra_srgb()],
            present_modes: vec![PRESENT_MODE_FIFO],
        })
    );
}

#[test]
fn support_reports_the_first_failed_question() {
    let caps = capabilities(2, 0, extent(800, 600), extent(1, 1), extent(4096, 4096));
    assert_eq!(SwapchainSupport::get(Err(-1), Err(-2), Err(-3)), Err(-1));
    assert_eq!(SwapchainSupport::get(Ok(caps), Err(-2), Err(-3)), Err(-2));
    assert_eq!(SwapchainSupport::get(Ok(caps), Ok(vec![]), Err(-3)), Err(-3));
}

#[test]
fn support_is_adequate_with_a_format_a_mode_and_a_count_that_fits() {
    let caps = capabilities(2, 0, extent(800, 600), extent(1, 1), extent(4096, 4096));
    let good = SwapchainSupport {
        capabilities: caps,
        formats: vec![bgra_srgb()],
        present_modes: vec![PRESENT_MODE_FIFO],
    };
    assert!(good.is_adequate());
    let no_format = SwapchainSupport { formats: vec![], ..good.clone() };
    assert!(!no_format.is_adequate());
    let no_mode = SwapchainSupport { present_modes: vec![], ..good.clone() };
    assert!(!no_mode.is_adequate());
    let overflow = SwapchainSupport {
        capabilities: capabilities(u32::MAX, 0, extent(1, 1), extent(1, 1), extent(1, 1)),
        ..good.clone()
    };
    assert!(!overflow.is_adequate());
    let bounded = SwapchainSupport {
        capabilities: capabilities(u32::MAX, 4, extent(1, 1), extent(1, 1), extent(1, 1)),
        ..good
    };
    assert!(bounded.is_adequate());
}
