use skia_vulkan_gl_renderer::geometry::framebuffer_id;
use skia_vulkan_gl_renderer::geometry::gpu_dimension;
use skia_vulkan_gl_renderer::gl_backend::derive_surface;
use skia_vulkan_gl_renderer::gl_backend::gl_context_request;
use skia_vulkan_gl_renderer::gl_backend::ColorFormat;
use skia_vulkan_gl_renderer::gl_backend::FramebufferDesc;
use skia_vulkan_gl_renderer::gl_backend::FramebufferFormat;
use skia_vulkan_gl_renderer::gl_backend::PixelFormatInfo;
use skia_vulkan_gl_renderer::gl_backend::SurfaceOrigin;
use skia_vulkan_gl_renderer::renderer::select_backend;
use skia_vulkan_gl_renderer::renderer::GlContextError;
use skia_vulkan_gl_renderer::renderer::PresentOutcome;
use skia_vulkan_gl_renderer::vulkan_backend::vulkan_config;
use skia_vulkan_gl_renderer::vulkan_backend::VulkanDrawError;
use skia_vulkan_gl_renderer::BackendKind;
use skia_vulkan_gl_renderer::GlRenderer;
use skia_vulkan_gl_renderer::GlSetupError;
use skia_vulkan_gl_renderer::PaintError;
use skia_vulkan_gl_renderer::PhysicalSize;
use skia_vulkan_gl_renderer::ScaleFactor;
use skia_vulkan_gl_renderer::SkulpinRenderer;
use skia_vulkan_gl_renderer::VulkanInitError;
use skia_vulkan_gl_renderer::WindowRenderer;

fn driver_absent() -> VulkanInitError {
    VulkanInitError {
        description: String::from("no Vulkan driver"),
    }
}

fn plain_format() -> PixelFormatInfo {
    PixelFormatInfo {
        stencil_bits: 8,
        multisampling: None,
    }
}

fn default_framebuffer() -> FramebufferDesc {
    FramebufferDesc {
        fboid: 0,
        format: FramebufferFormat::Rgba8,
    }
}

fn gl_renderer(width: u32, height: u32, scale: ScaleFactor) -> GlRenderer {
    GlRenderer::new(
        PhysicalSize::new(width, height),
        scale,
        plain_format(),
        default_framebuffer(),
    )
    .expect("size fits the GPU backend")
}

#[test]
fn selection_with_vulkan_available_is_vulkan_without_diagnostic() {
    let s = select_backend(Ok(()));
    assert_eq!(s.backend, BackendKind::Skulpin);
    assert!(s.diagnostic.is_none());
}

#[test]
fn selection_without_vulkan_falls_back_to_gl_with_one_diagnostic() {
    let s = select_backend(Err(driver_absent()));
    assert_eq!(s.backend, BackendKind::Gl);
    assert_eq!(s.diagnostic, Some(driver_absent()));
}

#[test]
fn scenario_800_by_600_without_vulkan_driver() {
    // Construction with logical size 800x600 on a host whose scale factor is
    // 1.0, so the physical size coincides, and no Vulkan driver.
    let selection = select_backend(Err(driver_absent()));
    assert_eq!(selection.backend, BackendKind::Gl);

    let renderer = WindowRenderer::from_gl(gl_renderer(800, 600, ScaleFactor::one()));
    assert_eq!(renderer.backend_kind(), BackendKind::Gl);
    assert_eq!(renderer.scale_factor().millionths, 1_000_000);

    // A paint that only clears the canvas: the callback runs exactly once
    // and the buffers are swapped exactly once.
    let plan = renderer.paint_plan();
    assert_eq!(plan.callback_invocations, 1);
    assert_eq!(plan.buffer_swaps, 1);
    assert_eq!(plan.flushes, 1);
    assert!(!plan.delegated_present);
    let surface = plan.gl_surface.expect("the GL path paints its own surface");
    assert_eq!((surface.width, surface.height), (800, 600));

    // Presentation succeeded: paint completes without error.
    let result = renderer.complete_paint(PresentOutcome::Presented);
    assert!(result.is_ok());
}

#[test]
fn scenario_800_by_600_with_vulkan_available() {
    let selection = select_backend(Ok(()));
    assert_eq!(selection.backend, BackendKind::Skulpin);
    assert!(selection.diagnostic.is_none());

    let mut renderer = WindowRenderer::from_skulpin(SkulpinRenderer::new(ScaleFactor::one()));
    assert_eq!(renderer.backend_kind(), BackendKind::Skulpin);

    // Resize is a no-op that raises no error.
    let effect = renderer
        .resize(PhysicalSize::new(1024, 768))
        .expect("resize on the Vulkan backend cannot fail");
    assert!(!effect.surface_rebuilt);
    assert!(!effect.redraw_requested);
    assert_eq!(renderer.backend_kind(), BackendKind::Skulpin);
}

#[test]
fn gl_resize_rebuilds_surface_at_new_size() {
    let mut renderer = WindowRenderer::from_gl(gl_renderer(800, 600, ScaleFactor::one()));
    let effect = renderer
        .resize(PhysicalSize::new(1280, 720))
        .expect("1280x720 fits the GPU backend");
    assert!(effect.surface_rebuilt);
    assert!(effect.redraw_requested);

    let plan = renderer.paint_plan();
    let surface = plan.gl_surface.expect("the GL path paints its own surface");
    assert_eq!((surface.width, surface.height), (1280, 720));
}

#[test]
fn gl_resize_rejects_oversized_width_and_changes_nothing() {
    let mut renderer = WindowRenderer::from_gl(gl_renderer(800, 600, ScaleFactor::one()));
    let result = renderer.resize(PhysicalSize::new(0x8000_0000, 600));
    assert_eq!(result, Err(GlSetupError::DimensionTooLarge(0x8000_0000)));

    let surface = renderer
        .paint_plan()
        .gl_surface
        .expect("the GL path paints its own surface");
    assert_eq!((surface.width, surface.height), (800, 600));
}

#[test]
fn gl_construction_rejects_oversized_height() {
    let result = GlRenderer::new(
        PhysicalSize::new(800, 0xffff_ffff),
        ScaleFactor::one(),
        plain_format(),
        default_framebuffer(),
    );
    assert!(matches!(
        result,
        Err(GlSetupError::DimensionTooLarge(0xffff_ffff))
    ));
}

#[test]
fn scale_factor_is_kept_across_resize_and_follows_host_reports() {
    let two = ScaleFactor::from_millionths(2_000_000);
    let mut renderer = WindowRenderer::from_gl(gl_renderer(1600, 1200, two));
    assert_eq!(renderer.scale_factor().millionths, 2_000_000);

    renderer
        .resize(PhysicalSize::new(3200, 2400))
        .expect("3200x2400 fits the GPU backend");
    assert_eq!(renderer.scale_factor().millionths, 2_000_000);

    let one_and_a_half = ScaleFactor::from_millionths(1_500_000);
    renderer.set_scale_factor(one_and_a_half);
    assert_eq!(renderer.scale_factor().millionths, 1_500_000);

    // The canvas-space scale transform follows the report.
    let surface = renderer
        .paint_plan()
        .gl_surface
        .expect("the GL path paints its own surface");
    assert_eq!(surface.canvas_scale.millionths, 1_500_000);
}

#[test]
fn vulkan_scale_factor_follows_host_reports() {
    let mut renderer = WindowRenderer::from_skulpin(SkulpinRenderer::new(ScaleFactor::one()));
    renderer.set_scale_factor(ScaleFactor::from_millionths(2_000_000));
    assert_eq!(renderer.scale_factor().millionths, 2_000_000);
}

#[test]
fn paint_plan_invokes_callback_once_on_both_backends() {
    let vulkan = WindowRenderer::from_skulpin(SkulpinRenderer::new(ScaleFactor::one()));
    assert_eq!(vulkan.paint_plan().callback_invocations, 1);
    assert!(vulkan.paint_plan().delegated_present);
    assert!(vulkan.paint_plan().gl_surface.is_none());

    let gl = WindowRenderer::from_gl(gl_renderer(800, 600, ScaleFactor::one()));
    assert_eq!(gl.paint_plan().callback_invocations, 1);
}

#[test]
fn present_failure_is_tagged_gl_on_the_gl_backend() {
    let renderer = WindowRenderer::from_gl(gl_renderer(800, 600, ScaleFactor::one()));
    let result = renderer.complete_paint(PresentOutcome::GlError(GlContextError::ContextLost));
    assert_eq!(result, Err(PaintError::Gl(GlContextError::ContextLost)));
}

#[test]
fn present_failure_is_tagged_vulkan_on_the_vulkan_backend() {
    let renderer = WindowRenderer::from_skulpin(SkulpinRenderer::new(ScaleFactor::one()));
    let failure = VulkanDrawError {
        description: String::from("swapchain out of date"),
    };
    let result = renderer.complete_paint(PresentOutcome::VulkanError(failure.clone()));
    assert_eq!(result, Err(PaintError::Skulpin(failure)));
}

#[test]
fn gpu_dimension_preserves_values_in_range_and_rejects_the_rest() {
    assert_eq!(gpu_dimension(0), Ok(0));
    assert_eq!(gpu_dimension(800), Ok(800));
    assert_eq!(gpu_dimension(0x7fff_ffff), Ok(0x7fff_ffff));
    assert_eq!(
        gpu_dimension(0x8000_0000),
        Err(GlSetupError::DimensionTooLarge(0x8000_0000))
    );
}

#[test]
fn framebuffer_id_rejects_negative_query_results() {
    assert_eq!(framebuffer_id(0), Ok(0));
    assert_eq!(framebuffer_id(7), Ok(7));
    assert_eq!(framebuffer_id(-1), Err(GlSetupError::NegativeFramebufferId(-1)));
}

#[test]
fn requested_gl_context_matches_the_design() {
    let request = gl_context_request();
    assert!(request.core_profile);
    assert_eq!(request.depth_bits, 0);
    assert_eq!(request.stencil_bits, 8);
    assert_eq!(request.color_bits, 24);
    assert_eq!(request.alpha_bits, 8);
    assert!(request.double_buffer);
}

#[test]
fn vulkan_configuration_matches_the_design() {
    let config = vulkan_config();
    assert!(config.logical_coordinate_system);
    assert!(config.debug_layer);
}

#[test]
fn render_target_carries_multisampling_and_stencil() {
    let renderer = GlRenderer::new(
        PhysicalSize::new(640, 480),
        ScaleFactor::one(),
        PixelFormatInfo {
            stencil_bits: 8,
            multisampling: Some(4),
        },
        FramebufferDesc {
            fboid: 3,
            format: FramebufferFormat::Rgba8,
        },
    )
    .expect("640x480 fits the GPU backend");
    assert_eq!(renderer.target.sample_count, Some(4));
    assert_eq!(renderer.target.stencil_bits, 8);
    assert_eq!(renderer.target.framebuffer.fboid, 3);
}

#[test]
fn surface_is_bottom_left_rgba8888_at_target_size() {
    let renderer = gl_renderer(320, 200, ScaleFactor::one());
    let surface = derive_surface(&renderer.target, renderer.scale);
    assert_eq!(surface, renderer.surface);
    assert_eq!(surface.origin, SurfaceOrigin::BottomLeft);
    assert_eq!(surface.color, ColorFormat::Rgba8888);
    assert_eq!((surface.width, surface.height), (320, 200));
}
