use vstd::prelude::*;

use crate::geometry::GlSetupError;
use crate::geometry::PhysicalSize;
use crate::geometry::ScaleFactor;
use crate::gl_backend::GlRenderer;
use crate::gl_backend::SurfaceDesc;
use crate::vulkan_backend::SkulpinRenderer;
use crate::vulkan_backend::VulkanDrawError;
use crate::vulkan_backend::VulkanInitError;

verus! {

/// Which of the two backends a renderer runs on.
#[derive(Clone, Copy, PartialEq, Eq, Structural, Debug)]
pub enum BackendKind {
    Skulpin,
    Gl,
}

/// The outcome of the backend selection: which backend to construct, and
/// the diagnostic to emit while falling back, if any.
pub struct Selection {
    pub backend: BackendKind,
    pub diagnostic: Option<VulkanInitError>,
}

pub open spec fn spec_select_backend(vulkan_outcome: Result<(), VulkanInitError>) -> Selection {
    match vulkan_outcome {
        Result::Ok(_) => Selection { backend: BackendKind::Skulpin, diagnostic: Option::None },
        Result::Err(e) => Selection { backend: BackendKind::Gl, diagnostic: Option::Some(e) },
    }
}

/// How many diagnostics a selection emits.
pub open spec fn spec_diagnostic_count(s: Selection) -> nat {
    if s.diagnostic is Some {
        1
    } else {
        0
    }
}

/// Decides the backend from the outcome of the attempted Vulkan
/// construction: the Vulkan backend when it succeeded, the GL fallback with
/// the failure as the one diagnostic when it did not.
pub fn select_backend(vulkan_outcome: Result<(), VulkanInitError>) -> (s: Selection)
    ensures
        s == spec_select_backend(vulkan_outcome),
{
    match vulkan_outcome {
        Ok(_) => Selection { backend: BackendKind::Skulpin, diagnostic: None },
        Err(e) => Selection { backend: BackendKind::Gl, diagnostic: Some(e) },
    }
}

/// Law: for every outcome of the attempted Vulkan construction, exactly one
/// backend is selected — the Vulkan backend exactly on success, the GL
/// backend exactly on failure, never both and never neither — and a
/// successful attempt emits no diagnostic.
pub proof fn lemma_selection_exclusive(vulkan_outcome: Result<(), VulkanInitError>)
    ensures
        (spec_select_backend(vulkan_outcome).backend is Skulpin) <==> (vulkan_outcome is Ok),
        (spec_select_backend(vulkan_outcome).backend is Gl) <==> (vulkan_outcome is Err),
        (spec_select_backend(vulkan_outcome).backend is Skulpin) != (spec_select_backend(
            vulkan_outcome,
        ).backend is Gl),
        vulkan_outcome is Ok ==> spec_diagnostic_count(spec_select_backend(vulkan_outcome)) == 0,
{
}

/// Law: a failed Vulkan construction always falls back to the GL backend
/// and emits exactly one diagnostic, which carries that failure.
pub proof fn lemma_fallback_emits_one_diagnostic(e: VulkanInitError)
    ensures
        spec_select_backend(Result::Err(e)).backend is Gl,
        spec_select_backend(Result::Err(e)).diagnostic == Option::Some(e),
        spec_diagnostic_count(spec_select_backend(Result::Err(e))) == 1,
{
}

/// A presentation failure from `paint`, tagged by the backend it came from.
#[derive(Clone, PartialEq, Eq, Debug)]
pub enum PaintError {
    Skulpin(VulkanDrawError),
    Gl(GlContextError),
}

/// Why the GL backend failed to present a frame, as the windowing library
/// reports it: a platform error with its message, a failed I/O operation
/// with its message, a lost context, or an unavailable function.
#[derive(Clone, PartialEq, Eq, Debug)]
pub enum GlContextError {
    OsError(String),
    IoError(String),
    ContextLost,
    FunctionUnavailable,
}

/// What a backend reported after the embedder ran a paint's presentation
/// step.
#[derive(Clone, PartialEq, Eq, Debug)]
pub enum PresentOutcome {
    Presented,
    GlError(GlContextError),
    VulkanError(VulkanDrawError),
}

/// What one paint must do, spelled out for the embedder: how often to
/// invoke the caller's callback, what to flush and present, and which
/// drawing surface the callback draws into on the GL path. On the Vulkan
/// path frame acquisition, drawing and presentation are delegated to the
/// library that owns the swapchain.
#[derive(Clone, Copy)]
pub struct PaintPlan {
    /// How many times the caller-supplied callback is invoked.
    pub callback_invocations: u32,
    /// Explicit flushes of pending drawing commands before presenting.
    pub flushes: u32,
    /// Direct front/back buffer swaps; zero where presentation is delegated.
    pub buffer_swaps: u32,
    /// Whether presentation is delegated to the Vulkan renderer library.
    pub delegated_present: bool,
    /// The surface the callback draws into on the GL path.
    pub gl_surface: Option<SurfaceDesc>,
}

/// The renderer: one of the two backends, chosen once at construction and
/// fixed for the renderer's lifetime.
#[derive(Clone, Copy)]
pub enum WindowRenderer {
    Skulpin(SkulpinRenderer),
    Gl(GlRenderer),
}

impl WindowRenderer {
    /// The GL variant's invariant; the Vulkan variant keeps no derived state.
    pub open spec fn wf(self) -> bool {
        match self {
            WindowRenderer::Skulpin(_) => true,
            WindowRenderer::Gl(g) => g.wf(),
        }
    }

    pub open spec fn spec_backend_kind(self) -> BackendKind {
        match self {
            WindowRenderer::Skulpin(_) => BackendKind::Skulpin,
            WindowRenderer::Gl(_) => BackendKind::Gl,
        }
    }

    pub open spec fn spec_scale(self) -> ScaleFactor {
        match self {
            WindowRenderer::Skulpin(s) => s.scale,
            WindowRenderer::Gl(g) => g.scale,
        }
    }

    /// Wraps the Vulkan-backed state selected on a successful Vulkan
    /// construction.
    pub fn from_skulpin(renderer: SkulpinRenderer) -> (r: WindowRenderer)
        ensures
            r == WindowRenderer::Skulpin(renderer),
    {
        WindowRenderer::Skulpin(renderer)
    }

    /// Wraps the GL-backed state constructed as the fallback.
    pub fn from_gl(renderer: GlRenderer) -> (r: WindowRenderer)
        ensures
            r == WindowRenderer::Gl(renderer),
    {
        WindowRenderer::Gl(renderer)
    }

    /// Which backend was chosen at construction.
    pub fn backend_kind(&self) -> (k: BackendKind)
        ensures
            k == self.spec_backend_kind(),
    {
        match self {
            WindowRenderer::Skulpin(_) => BackendKind::Skulpin,
            WindowRenderer::Gl(_) => BackendKind::Gl,
        }
    }

    /// The window's scale factor as last reported by the host, whatever the
    /// backend.
    pub fn scale_factor(&self) -> (s: ScaleFactor)
        ensures
            s == self.spec_scale(),
    {
        match self {
            WindowRenderer::Skulpin(renderer) => renderer.scale_factor(),
            WindowRenderer::Gl(renderer) => renderer.scale_factor(),
        }
    }

    /// Records a new scale factor reported by the host window, on either
    /// backend; nothing but the scale (and, on the GL path, the surface's
    /// canvas transform that follows it) moves.
    pub fn set_scale_factor(&mut self, scale: ScaleFactor)
        requires
            old(self).wf(),
        ensures
            final(self).wf(),
            final(self).spec_scale() == scale,
            final(self).spec_backend_kind() == old(self).spec_backend_kind(),
            *old(self) matches WindowRenderer::Skulpin(pre) ==> *final(self)
                == WindowRenderer::Skulpin(SkulpinRenderer { scale, config: pre.config }),
            *old(self) matches WindowRenderer::Gl(pre) ==> (*final(self) matches WindowRenderer::Gl(
                post,
            ) && post == (GlRenderer {
                scale,
                surface: crate::gl_backend::spec_surface(pre.target, scale),
                ..pre
            })),
    {
        match self {
            WindowRenderer::Skulpin(renderer) => renderer.set_scale_factor(scale),
            WindowRenderer::Gl(renderer) => renderer.set_scale_factor(scale),
        }
    }

    /// How a successful resize rewrites the renderer: a no-op on the Vulkan
    /// backend, whose delegated library tracks the swapchain itself, and the
    /// atomic render-target and surface rebuild on the GL backend.
    pub open spec fn spec_resized(pre: WindowRenderer, post: WindowRenderer, size: PhysicalSize) -> bool {
        match pre {
            WindowRenderer::Skulpin(_) => post == pre,
            WindowRenderer::Gl(g_pre) => post matches WindowRenderer::Gl(g_post)
                && GlRenderer::spec_resized(g_pre, g_post, size),
        }
    }

    /// Reacts to the window's new physical size: nothing to do on the Vulkan
    /// backend, a rebuild of render target and drawing surface on the GL
    /// backend. On the GL backend the new size can be rejected as oversized;
    /// the state is then unchanged. A successful GL resize asks for a redraw.
    pub fn resize(&mut self, size: PhysicalSize) -> (r: Result<ResizeEffect, GlSetupError>)
        requires
            old(self).wf(),
        ensures
            final(self).wf(),
            (*old(self)) is Skulpin ==> (r == Ok::<ResizeEffect, GlSetupError>(
                ResizeEffect { surface_rebuilt: false, redraw_requested: false },
            ) && *final(self) == *old(self)),
            (*old(self)) is Gl ==> ((r is Ok) <==> size.fits_gpu()),
            (*old(self)) is Gl && r is Ok ==> (Self::spec_resized(*old(self), *final(self), size) && r
                == Ok::<ResizeEffect, GlSetupError>(
                ResizeEffect { surface_rebuilt: true, redraw_requested: true },
            )),
            r is Err ==> *final(self) == *old(self),
            (*old(self)) is Gl && size.width > crate::geometry::MAX_GPU_DIMENSION ==> r == Err::<
                ResizeEffect,
                GlSetupError,
            >(GlSetupError::DimensionTooLarge(size.width)),
            (*old(self)) is Gl && size.width <= crate::geometry::MAX_GPU_DIMENSION && size.height
                > crate::geometry::MAX_GPU_DIMENSION ==> r == Err::<ResizeEffect, GlSetupError>(
                GlSetupError::DimensionTooLarge(size.height),
            ),
    {
        match self {
            WindowRenderer::Skulpin(_) => Ok(
                ResizeEffect { surface_rebuilt: false, redraw_requested: false },
            ),
            WindowRenderer::Gl(renderer) => {
                match renderer.resize(size) {
                    Ok(_) => Ok(ResizeEffect { surface_rebuilt: true, redraw_requested: true }),
                    Err(e) => Err(e),
                }
            },
        }
    }

    pub open spec fn spec_paint_plan(self) -> PaintPlan {
        match self {
            WindowRenderer::Skulpin(_) => PaintPlan {
                callback_invocations: 1,
                flushes: 0,
                buffer_swaps: 0,
                delegated_present: true,
                gl_surface: Option::None,
            },
            WindowRenderer::Gl(g) => PaintPlan {
                callback_invocations: 1,
                flushes: 1,
                buffer_swaps: 1,
                delegated_present: false,
                gl_surface: Option::Some(g.surface),
            },
        }
    }

    /// What the next paint must do. The caller-supplied callback is invoked
    /// exactly once on either backend. On the GL backend the callback draws
    /// into the current surface, pending commands are flushed once and the
    /// buffers are swapped once; on the Vulkan backend drawing and
    /// presentation are one delegated call. The renderer owns its surface
    /// outright, so acquiring the canvas cannot fail.
    pub fn paint_plan(&self) -> (p: PaintPlan)
        ensures
            p == self.spec_paint_plan(),
    {
        match self {
            WindowRenderer::Skulpin(_) => PaintPlan {
                callback_invocations: 1,
                flushes: 0,
                buffer_swaps: 0,
                delegated_present: true,
                gl_surface: None,
            },
            WindowRenderer::Gl(renderer) => PaintPlan {
                callback_invocations: 1,
                flushes: 1,
                buffer_swaps: 1,
                delegated_present: false,
                gl_surface: Some(renderer.surface),
            },
        }
    }

    /// A backend only ever reports a failure of its own kind.
    pub open spec fn outcome_matches_backend(self, outcome: PresentOutcome) -> bool {
        match outcome {
            PresentOutcome::Presented => true,
            PresentOutcome::GlError(_) => self is Gl,
            PresentOutcome::VulkanError(_) => self is Skulpin,
        }
    }

    /// Turns what the backend reported after presenting into `paint`'s
    /// result: success stays success, and a failure is surfaced to the
    /// caller tagged with the backend it came from, for the caller to decide
    /// whether to retry the frame. Nothing is retried here.
    pub fn complete_paint(&self, outcome: PresentOutcome) -> (r: Result<(), PaintError>)
        requires
            self.outcome_matches_backend(outcome),
        ensures
            (r is Ok) <==> (outcome is Presented),
            outcome matches PresentOutcome::GlError(e) ==> r == Err::<(), PaintError>(
                PaintError::Gl(e),
            ),
            outcome matches PresentOutcome::VulkanError(e) ==> r == Err::<(), PaintError>(
                PaintError::Skulpin(e),
            ),
    {
        match outcome {
            PresentOutcome::Presented => Ok(()),
            PresentOutcome::GlError(e) => Err(PaintError::Gl(e)),
            PresentOutcome::VulkanError(e) => Err(PaintError::Skulpin(e)),
        }
    }
}

/// What a resize did, for the embedder to act on: whether the render target
/// and drawing surface were rebuilt (so the live GPU objects must be rebuilt
/// to match), and whether a redraw of the window must be requested.
#[derive(Clone, Copy, PartialEq, Eq, Structural, Debug)]
pub struct ResizeEffect {
    pub surface_rebuilt: bool,
    pub redraw_requested: bool,
}

/// Law: a paint invokes the supplied callback exactly once, whatever the
/// backend. Surface acquisition cannot fail here — the renderer is the sole
/// owner of its surface — so there is no outcome in which the callback runs
/// zero or several times.
pub proof fn lemma_paint_invokes_callback_once(r: WindowRenderer)
    ensures
        r.spec_paint_plan().callback_invocations == 1,
{
}

/// Law: after a resize to `size` on the GL backend, the next paint draws
/// into a surface whose reported dimensions equal exactly that size.
pub proof fn lemma_paint_after_resize_uses_new_size(
    pre: WindowRenderer,
    post: WindowRenderer,
    size: PhysicalSize,
)
    requires
        pre is Gl,
        WindowRenderer::spec_resized(pre, post, size),
    ensures
        post.spec_paint_plan().gl_surface matches Some(s) && s.width == size.width as i32
            && s.height == size.height as i32,
{
}

/// Law: a resize leaves the reported scale factor exactly as the host last
/// reported it, on either backend; only a new report from the host moves it.
pub proof fn lemma_scale_factor_stable_across_resize(
    pre: WindowRenderer,
    post: WindowRenderer,
    size: PhysicalSize,
)
    requires
        WindowRenderer::spec_resized(pre, post, size),
    ensures
        post.spec_scale() == pre.spec_scale(),
{
}

} // verus!
