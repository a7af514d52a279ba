use dunward_renderer::queue::{Queue, QueueFamily};
use dunward_renderer::texture::{Extent2D, ImageUsage};
use dunward_renderer::viewport::{
    choose_image_count, choose_image_extent, choose_pre_transform, choose_present_mode,
    choose_surface_format, present_outcome, PresentImage, PresentResult, PresentStatus,
    RenderSurface, RenderSwapchain, RenderViewport, SurfaceCapabilities, SurfaceFormat,
    SwapchainConfig, ViewportError, COLOR_SPACE_SRGB_NONLINEAR, FORMAT_B8G8R8A8_SRGB,
    PRESENT_MODE_FIFO, PRESENT_MODE_MAILBOX, TRANSFORM_IDENTITY, UNDEFINED_EXTENT,
};

fn format(format: i32, color_space: i32) -> SurfaceFormat {
    SurfaceFormat { format, color_space }
}

fn extent(width: u32, height: u32) -> Extent2D {
    Extent2D { width, height }
}

fn capabilities() -> SurfaceCapabilities {
    SurfaceCapabilities {
        min_image_count: 2,
        max_image_count: 8,
        current_extent: extent(UNDEFINED_EXTENT, UNDEFINED_EXTENT),
        min_image_extent: extent(16, 32),
        max_image_extent: extent(4096, 2160),
        supported_transforms: 0x1ff,
        current_transform: 0x2,
    }
}

fn present_queue() -> Queue {
    Queue::new(QueueFamily::new(0, 0x7, true), 99)
}

#[test]
fn the_preferred_format_is_chosen_where_offered() {
    let preferred = format(FORMAT_B8G8R8A8_SRGB, COLOR_SPACE_SRGB_NONLINEAR);
    assert_eq!(preferred, format(50, 0));
    assert_eq!(choose_surface_format(&vec![format(44, 0), preferred, format(37, 0)]), Ok(preferred));
    assert_eq!(choose_surface_format(&vec![preferred]), Ok(preferred));
}

#[test]
fn the_first_format_is_the_fallback() {
    assert_eq!(
        choose_surface_format(&vec![format(44, 0), format(50, 1), format(37, 0)]),
        Ok(format(44, 0))
    );
    assert_eq!(choose_surface_format(&vec![format(50, 1000104001)]), Ok(format(50, 1000104001)));
    assert_eq!(choose_surface_format(&vec![]), Err(ViewportError::NoSurfaceFormat));
}

#[test]
fn mailbox_is_preferred_and_fifo_is_the_fallback() {
    assert_eq!(choose_present_mode(&vec![0, 2, 1, 3]), PRESENT_MODE_MAILBOX);
    assert_eq!(choose_present_mode(&vec![1]), 1);
    assert_eq!(choose_present_mode(&vec![0, 2, 3]), PRESENT_MODE_FIFO);
    assert_eq!(choose_present_mode(&vec![0, 3]), 2);
    assert_eq!(choose_present_mode(&vec![]), 2);
}

#[test]
fn the_extent_of_the_surface_is_taken_where_it_has_one() {
    let mut caps = capabilities();
    caps.current_extent = extent(1280, 720);
    assert_eq!(choose_image_extent(&caps, extent(5, 5)), extent(1280, 720));
    assert_eq!(choose_image_extent(&caps, extent(9999, 9999)), extent(1280, 720));
}

#[test]
fn the_window_size_is_clamped_where_the_surface_has_no_extent() {
    let caps = capabilities();
    assert_eq!(choose_image_extent(&caps, extent(800, 600)), extent(800, 600));
    assert_eq!(choose_image_extent(&caps, extent(0, 0)), extent(16, 32));
    assert_eq!(choose_image_extent(&caps, extent(5000, 31)), extent(4096, 32));
    assert_eq!(choose_image_extent(&caps, extent(15, 2161)), extent(16, 2160));
    assert_eq!(choose_image_extent(&caps, extent(16, 2160)), extent(16, 2160));
    assert_eq!(choose_image_extent(&caps, extent(4096, 32)), extent(4096, 32));
    assert_eq!(choose_image_extent(&caps, extent(u32::MAX, u32::MAX)), extent(4096, 2160));
}

#[test]
fn one_image_more_than_the_minimum_is_asked_for() {
    let mut caps = capabilities();
    assert_eq!(choose_image_count(&caps), 3);
    caps.max_image_count = 3;
    assert_eq!(choose_image_count(&caps), 3);
    caps.max_image_count = 2;
    assert_eq!(choose_image_count(&caps), 2);
    caps.max_image_count = 0;
    assert_eq!(choose_image_count(&caps), 3);
    caps.min_image_count = 0;
    assert_eq!(choose_image_count(&caps), 1);
    caps.min_image_count = u32::MAX - 1;
    assert_eq!(choose_image_count(&caps), u32::MAX);
    caps.max_image_count = 7;
    assert_eq!(choose_image_count(&caps), 7);
}

#[test]
fn the_identity_transform_is_preferred() {
    let mut caps = capabilities();
    assert_eq!(choose_pre_transform(&caps), TRANSFORM_IDENTITY);
    caps.supported_transforms = 0x1fe;
    assert_eq!(choose_pre_transform(&caps), 0x2);
    caps.current_transform = 0x10;
    assert_eq!(choose_pre_transform(&caps), 0x10);
}

#[test]
fn a_stale_swapchain_asks_for_a_resize() {
    assert_eq!(present_outcome(PresentStatus::Success), Ok(PresentResult::Success));
    assert_eq!(present_outcome(PresentStatus::Suboptimal), Ok(PresentResult::ResizeRequested));
    assert_eq!(present_outcome(PresentStatus::OutOfDate), Ok(PresentResult::ResizeRequested));
    assert_eq!(present_outcome(PresentStatus::Failed(-4)), Err(ViewportError::PresentFailed(-4)));
}

#[test]
fn the_lists_of_a_surface_are_filled_once() {
    let mut surface = RenderSurface::new(11);
    assert!(surface.can_generate_formats());
    assert!(surface.can_generate_present_modes());
    assert_eq!(surface.generate_surface_formats(vec![format(44, 0)]), Ok(()));
    assert!(!surface.can_generate_formats());
    assert_eq!(
        surface.generate_surface_formats(vec![format(50, 0)]),
        Err(ViewportError::FormatsAlreadyGenerated)
    );
    assert_eq!(surface.surface_formats, vec![format(44, 0)]);
    assert_eq!(surface.generate_surface_present_modes(vec![2, 1]), Ok(()));
    assert_eq!(
        surface.generate_surface_present_modes(vec![0]),
        Err(ViewportError::PresentModesAlreadyGenerated)
    );
    assert_eq!(surface.surface_present_modes, vec![2, 1]);
    assert_eq!(surface.surface, 11);
}

#[test]
fn a_surface_that_reports_nothing_may_be_asked_again() {
    let mut surface = RenderSurface::new(11);
    assert_eq!(surface.generate_surface_formats(vec![]), Ok(()));
    assert_eq!(surface.generate_surface_formats(vec![format(44, 0)]), Ok(()));
    assert_eq!(surface.surface_formats, vec![format(44, 0)]);
}

fn surface() -> RenderSurface {
    let mut surface = RenderSurface::new(11);
    surface.generate_surface_formats(vec![format(44, 0), format(50, 0)]).unwrap();
    surface.generate_surface_present_modes(vec![2, 0]).unwrap();
    surface
}

#[test]
fn a_swapchain_is_configured_from_the_surface() {
    let config = RenderSwapchain::configure(&surface(), &capabilities(), extent(10, 10000));
    assert_eq!(
        config,
        Ok(SwapchainConfig {
            format: format(50, 0),
            present_mode: 2,
            extent: extent(16, 2160),
            min_image_count: 3,
            pre_transform: 1,
            image_usage: ImageUsage {
                color_attachment: true,
                sampled: false,
                storage: false,
                transfer_src: false,
                transfer_dst: true,
                depth_stencil_attachment: false,
            },
            image_array_layers: 1,
            exclusive_sharing: true,
            opaque: true,
            clipped: true,
        })
    );
    assert_eq!(
        RenderSwapchain::configure(&RenderSurface::new(1), &capabilities(), extent(10, 10)),
        Err(ViewportError::NoSurfaceFormat)
    );
}

fn viewport() -> RenderViewport {
    let surface = surface();
    let config = RenderSwapchain::configure(&surface, &capabilities(), extent(800, 600)).unwrap();
    RenderViewport::new(surface, RenderSwapchain::new(config, vec![100, 101, 102]), present_queue())
}

#[test]
fn an_acquired_index_names_an_image_of_the_swapchain() {
    let viewport = viewport();
    assert_eq!(
        viewport.acquire_next_present_image(2, true),
        Ok(PresentImage { image: 102, index: 2, extent: extent(800, 600), suboptimal: true })
    );
    assert_eq!(
        viewport.acquire_next_present_image(0, false),
        Ok(PresentImage { image: 100, index: 0, extent: extent(800, 600), suboptimal: false })
    );
    assert_eq!(
        viewport.acquire_next_present_image(3, false),
        Err(ViewportError::ImageIndexOutOfRange)
    );
    assert_eq!(
        viewport.acquire_next_present_image(u32::MAX, false),
        Err(ViewportError::ImageIndexOutOfRange)
    );
}

#[test]
fn presenting_through_the_viewport() {
    let viewport = viewport();
    assert_eq!(viewport.present(PresentStatus::Success), Ok(PresentResult::Success));
    assert_eq!(viewport.present(PresentStatus::OutOfDate), Ok(PresentResult::ResizeRequested));
    assert_eq!(viewport.present(PresentStatus::Failed(-1)), Err(ViewportError::PresentFailed(-1)));
}

#[test]
fn after_a_resize_the_size_is_the_new_size_clamped() {
    let mut viewport = viewport();
    assert_eq!(viewport.get_size(), extent(800, 600));
    let caps = capabilities();
    let config = viewport.resize(extent(1024, 768), &caps, Ok(vec![7, 8])).unwrap();
    assert_eq!(config.extent, extent(1024, 768));
    assert_eq!(viewport.get_size(), extent(1024, 768));
    assert_eq!(viewport.swapchain.swapchain_images, vec![7, 8]);
    assert_eq!(viewport.acquire_next_present_image(1, false).unwrap().image, 8);
    assert_eq!(viewport.acquire_next_present_image(2, false), Err(ViewportError::ImageIndexOutOfRange));

    viewport.resize(extent(1, 1), &caps, Ok(vec![9])).unwrap();
    assert_eq!(viewport.get_size(), extent(16, 32));
    viewport.resize(extent(100000, 100), &caps, Ok(vec![9])).unwrap();
    assert_eq!(viewport.get_size(), extent(4096, 100));
    viewport.resize(extent(100, 100000), &caps, Ok(vec![9])).unwrap();
    assert_eq!(viewport.get_size(), extent(100, 2160));
}

#[test]
fn a_resize_follows_the_extent_of_the_surface_where_it_has_one() {
    let mut viewport = viewport();
    let mut caps = capabilities();
    caps.current_extent = extent(640, 480);
    viewport.resize(extent(1024, 768), &caps, Ok(vec![1])).unwrap();
    assert_eq!(viewport.get_size(), extent(640, 480));
}

#[test]
fn a_resize_without_a_format_keeps_the_swapchain() {
    let config = RenderSwapchain::configure(&surface(), &capabilities(), extent(800, 600)).unwrap();
    let mut viewport = RenderViewport::new(
        RenderSurface::new(1),
        RenderSwapchain::new(config, vec![100]),
        present_queue(),
    );
    assert_eq!(
        viewport.resize(extent(1024, 768), &capabilities(), Ok(vec![5, 6])),
        Err(ViewportError::NoSurfaceFormat)
    );
    assert_eq!(viewport.get_size(), extent(800, 600));
    assert_eq!(viewport.swapchain.swapchain_images, vec![100]);
}

#[test]
fn a_resize_that_the_driver_refuses_keeps_the_swapchain() {
    let mut viewport = viewport();
    assert_eq!(
        viewport.resize(extent(1024, 768), &capabilities(), Err(-8)),
        Err(ViewportError::SwapchainFailed(-8))
    );
    assert_eq!(viewport.get_size(), extent(800, 600));
    assert_eq!(viewport.swapchain.swapchain_images, vec![100, 101, 102]);
    assert_eq!(viewport.acquire_next_present_image(2, false).unwrap().image, 102);
}

#[test]
fn capabilities_are_checked() {
    let mut caps = capabilities();
    assert!(caps.check());
    caps.min_image_extent = extent(4097, 32);
    assert!(!caps.check());
    caps.min_image_extent = extent(4096, 2161);
    assert!(!caps.check());
    caps.min_image_extent = extent(4096, 2160);
    assert!(caps.check());
    caps.min_image_count = u32::MAX;
    assert!(!caps.check());
}
