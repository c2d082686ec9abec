use vstd::prelude::*;

use crate::geometry::GlSetupError;
use crate::geometry::PhysicalSize;
use crate::geometry::ScaleFactor;
use crate::geometry::MAX_GPU_DIMENSION;

verus! {

/// What the OpenGL context is asked for at construction: a core profile
/// with no depth buffer, an 8-bit stencil buffer, 24-bit color with an
/// 8-bit alpha channel, and double buffering.
#[derive(Clone, Copy, PartialEq, Eq, Structural, Debug)]
pub struct ContextRequest {
    pub core_profile: bool,
    pub depth_bits: u8,
    pub stencil_bits: u8,
    pub color_bits: u8,
    pub alpha_bits: u8,
    pub double_buffer: bool,
}

pub open spec fn spec_context_request() -> ContextRequest {
    ContextRequest {
        core_profile: true,
        depth_bits: 0,
        stencil_bits: 8,
        color_bits: 24,
        alpha_bits: 8,
        double_buffer: true,
    }
}

/// The fixed request the embedder hands to the windowing library when it
/// builds the GL context.
pub fn gl_context_request() -> (c: ContextRequest)
    ensures
        c == spec_context_request(),
{
    ContextRequest {
        core_profile: true,
        depth_bits: 0,
        stencil_bits: 8,
        color_bits: 24,
        alpha_bits: 8,
        double_buffer: true,
    }
}

/// The pixel format the constructed context reports back: the fields the
/// render target description reads.
#[derive(Clone, Copy, PartialEq, Eq, Structural, Debug)]
pub struct PixelFormatInfo {
    /// Stencil bit depth of the context's default framebuffer.
    pub stencil_bits: u8,
    /// Multisampling level, or `None` when multisampling is disabled.
    pub multisampling: Option<u16>,
}

/// Color layout of the framebuffer as described to the drawing library.
#[derive(Clone, Copy, PartialEq, Eq, Structural, Debug)]
pub enum FramebufferFormat {
    Rgba8,
}

/// The framebuffer the context left bound after construction, identified to
/// the drawing library by id and color format.
#[derive(Clone, Copy, PartialEq, Eq, Structural, Debug)]
pub struct FramebufferDesc {
    pub fboid: u32,
    pub format: FramebufferFormat,
}

/// What the drawing library is told about the destination framebuffer:
/// dimensions, multisampling, stencil depth and the framebuffer itself.
/// Tied to fixed dimensions, so it is rebuilt on every resize.
#[derive(Clone, Copy, PartialEq, Eq, Structural, Debug)]
pub struct RenderTargetDesc {
    pub width: i32,
    pub height: i32,
    pub sample_count: Option<i32>,
    pub stencil_bits: i32,
    pub framebuffer: FramebufferDesc,
}

/// The multisampling level in the width the drawing library takes it;
/// a 16-bit level always fits.
pub open spec fn spec_sample_count(multisampling: Option<u16>) -> Option<i32> {
    match multisampling {
        Option::None => Option::None,
        Option::Some(level) => Option::Some(level as i32),
    }
}

/// The render target description that a window of `size` with the queried
/// `format` and bound `framebuffer` gets. Meaningful when `size.fits_gpu()`.
pub open spec fn spec_render_target(
    size: PhysicalSize,
    format: PixelFormatInfo,
    framebuffer: FramebufferDesc,
) -> RenderTargetDesc {
    RenderTargetDesc {
        width: size.width as i32,
        height: size.height as i32,
        sample_count: spec_sample_count(format.multisampling),
        stencil_bits: format.stencil_bits as i32,
        framebuffer,
    }
}

/// Builds the render target description for the GPU backend, rejecting a
/// size whose width or height does not survive the conversion to the
/// backend's signed 32-bit dimensions. The width is checked first.
pub fn build_render_target(
    size: PhysicalSize,
    format: PixelFormatInfo,
    framebuffer: FramebufferDesc,
) -> (r: Result<RenderTargetDesc, GlSetupError>)
    ensures
        (r is Ok) <==> size.fits_gpu(),
        r matches Ok(t) ==> t == spec_render_target(size, format, framebuffer),
        size.width > MAX_GPU_DIMENSION ==> r == Err::<RenderTargetDesc, GlSetupError>(
            GlSetupError::DimensionTooLarge(size.width),
        ),
        size.width <= MAX_GPU_DIMENSION && size.height > MAX_GPU_DIMENSION ==> r == Err::<
            RenderTargetDesc,
            GlSetupError,
        >(GlSetupError::DimensionTooLarge(size.height)),
{
    let width = crate::geometry::gpu_dimension(size.width)?;
    let height = crate::geometry::gpu_dimension(size.height)?;
    let sample_count: Option<i32> = match format.multisampling {
        Option::None => Option::None,
        Option::Some(level) => Option::Some(level as i32),
    };
    Ok(
        RenderTargetDesc {
            width,
            height,
            sample_count,
            stencil_bits: format.stencil_bits as i32,
            framebuffer,
        },
    )
}

/// Row origin of the drawing surface.
#[derive(Clone, Copy, PartialEq, Eq, Structural, Debug)]
pub enum SurfaceOrigin {
    BottomLeft,
    TopLeft,
}

/// Color layout the drawing surface exposes to paint callbacks.
#[derive(Clone, Copy, PartialEq, Eq, Structural, Debug)]
pub enum ColorFormat {
    Rgba8888,
}

/// What the drawing surface bound to a render target must describe: the
/// target's dimensions, a bottom-left row origin, an RGBA8888 color layout,
/// and the canvas-space scale that lets callers draw in logical
/// (DPI-independent) coordinates.
#[derive(Clone, Copy, PartialEq, Eq, Structural, Debug)]
pub struct SurfaceDesc {
    pub width: i32,
    pub height: i32,
    pub origin: SurfaceOrigin,
    pub color: ColorFormat,
    pub canvas_scale: ScaleFactor,
}

pub open spec fn spec_surface(target: RenderTargetDesc, scale: ScaleFactor) -> SurfaceDesc {
    SurfaceDesc {
        width: target.width,
        height: target.height,
        origin: SurfaceOrigin::BottomLeft,
        color: ColorFormat::Rgba8888,
        canvas_scale: scale,
    }
}

/// The drawing surface a render target gets: same dimensions, bottom-left
/// origin, RGBA8888 color, and the window's scale factor as the canvas
/// transform.
pub fn derive_surface(target: &RenderTargetDesc, scale: ScaleFactor) -> (s: SurfaceDesc)
    ensures
        s == spec_surface(*target, scale),
{
    SurfaceDesc {
        width: target.width,
        height: target.height,
        origin: SurfaceOrigin::BottomLeft,
        color: ColorFormat::Rgba8888,
        canvas_scale: scale,
    }
}

/// The OpenGL-backed renderer's bookkeeping: the window's current physical
/// size and scale factor, the queried pixel format and bound framebuffer,
/// and the render target and drawing surface descriptions derived from
/// them. The embedder owns the live context and GPU objects and keeps them
/// shaped exactly as `target` and `surface` say.
#[derive(Clone, Copy)]
pub struct GlRenderer {
    pub size: PhysicalSize,
    pub scale: ScaleFactor,
    pub pixel_format: PixelFormatInfo,
    pub framebuffer: FramebufferDesc,
    pub target: RenderTargetDesc,
    pub surface: SurfaceDesc,
}

impl GlRenderer {
    /// The invariant every constructor establishes and every method keeps:
    /// render target and drawing surface are consistent with the window's
    /// current physical size and scale factor.
    pub open spec fn wf(self) -> bool {
        &&& self.size.fits_gpu()
        &&& self.target == spec_render_target(self.size, self.pixel_format, self.framebuffer)
        &&& self.surface == spec_surface(self.target, self.scale)
    }

    /// Builds the renderer's state from what the embedder created and
    /// queried: the window's physical size and scale factor, the context's
    /// pixel format, and the bound framebuffer. Rejects a size the GPU
    /// backend cannot take, instead of terminating the host process.
    pub fn new(
        size: PhysicalSize,
        scale: ScaleFactor,
        pixel_format: PixelFormatInfo,
        framebuffer: FramebufferDesc,
    ) -> (r: Result<GlRenderer, GlSetupError>)
        ensures
            (r is Ok) <==> size.fits_gpu(),
            r matches Ok(g) ==> g == (GlRenderer {
                size,
                scale,
                pixel_format,
                framebuffer,
                target: spec_render_target(size, pixel_format, framebuffer),
                surface: spec_surface(spec_render_target(size, pixel_format, framebuffer), scale),
            }),
            r matches Ok(g) ==> g.wf(),
            size.width > MAX_GPU_DIMENSION ==> r == Err::<GlRenderer, GlSetupError>(
                GlSetupError::DimensionTooLarge(size.width),
            ),
            size.width <= MAX_GPU_DIMENSION && size.height > MAX_GPU_DIMENSION ==> r == Err::<
                GlRenderer,
                GlSetupError,
            >(GlSetupError::DimensionTooLarge(size.height)),
    {
        let target = build_render_target(size, pixel_format, framebuffer)?;
        let surface = derive_surface(&target, scale);
        Ok(GlRenderer { size, scale, pixel_format, framebuffer, target, surface })
    }

    /// How a successful resize rewrites the state: the new size is recorded,
    /// the render target is rebuilt at it, and the drawing surface is rebuilt
    /// with the target in one step, so the two never disagree. The scale
    /// factor is kept, and the canvas-space scale transform is reapplied to
    /// the rebuilt surface: a surface rebuilt without it would silently
    /// revert callers to physical coordinates.
    pub open spec fn spec_resized(pre: GlRenderer, post: GlRenderer, size: PhysicalSize) -> bool {
        &&& post.size == size
        &&& post.scale == pre.scale
        &&& post.pixel_format == pre.pixel_format
        &&& post.framebuffer == pre.framebuffer
        &&& post.target == spec_render_target(size, pre.pixel_format, pre.framebuffer)
        &&& post.surface == spec_surface(post.target, pre.scale)
    }

    /// Rebuilds the render target and drawing surface at the window's new
    /// physical size, atomically from the caller's point of view: on an
    /// oversized dimension nothing changes and the error says which value
    /// was rejected. The pixel format recorded at construction is reused:
    /// a constructed context's pixel format never changes, so the fresh
    /// query the embedder could make returns the same value.
    pub fn resize(&mut self, size: PhysicalSize) -> (r: Result<(), GlSetupError>)
        requires
            old(self).wf(),
        ensures
            (r is Ok) <==> size.fits_gpu(),
            r is Ok ==> Self::spec_resized(*old(self), *final(self), size),
            r is Ok ==> final(self).wf(),
            r is Err ==> *final(self) == *old(self),
            size.width > MAX_GPU_DIMENSION ==> r == Err::<(), GlSetupError>(
                GlSetupError::DimensionTooLarge(size.width),
            ),
            size.width <= MAX_GPU_DIMENSION && size.height > MAX_GPU_DIMENSION ==> r == Err::<
                (),
                GlSetupError,
            >(GlSetupError::DimensionTooLarge(size.height)),
    {
        let target = match build_render_target(size, self.pixel_format, self.framebuffer) {
            Ok(target) => target,
            Err(e) => {
                return Err(e);
            },
        };
        let surface = derive_surface(&target, self.scale);
        self.size = size;
        self.target = target;
        self.surface = surface;
        Ok(())
    }

    /// The window's scale factor as last reported by the host.
    pub fn scale_factor(&self) -> (s: ScaleFactor)
        ensures
            s == self.scale,
    {
        self.scale
    }

    /// Records a new scale factor reported by the host window, and moves the
    /// drawing surface's canvas transform with it so callers keep drawing in
    /// logical coordinates.
    pub fn set_scale_factor(&mut self, scale: ScaleFactor)
        requires
            old(self).wf(),
        ensures
            *final(self) == (GlRenderer {
                scale,
                surface: spec_surface(old(self).target, scale),
                ..*old(self)
            }),
            final(self).wf(),
    {
        self.scale = scale;
        self.surface = derive_surface(&self.target, scale);
    }
}

} // verus!
