//! Backend selection and surface-lifecycle state machine for a
//! GPU-accelerated window renderer.
//!
//! A desktop window is drawn through one of two backends: a Vulkan-backed
//! renderer supplied by a delegated library, preferred, or an OpenGL-backed
//! renderer built by hand, as the fallback. This crate holds the part of
//! that shim that decides and keeps books: which backend to construct, what
//! the GPU render target and drawing surface must describe at every moment,
//! how both are replaced together on a window resize, and how presentation
//! errors are tagged by backend. Everything the decisions are about is held
//! as plain values; the windowing system, the GPU APIs and the 2D drawing
//! library are collaborators that an embedder drives with the plans and
//! descriptions produced here.

pub mod geometry;
pub mod gl_backend;
pub mod renderer;
pub mod vulkan_backend;

pub use geometry::GlSetupError;
pub use geometry::PhysicalSize;
pub use geometry::ScaleFactor;
pub use gl_backend::GlRenderer;
pub use renderer::BackendKind;
pub use renderer::PaintError;
pub use renderer::Selection;
pub use renderer::WindowRenderer;
pub use vulkan_backend::SkulpinRenderer;
pub use vulkan_backend::VulkanInitError;
