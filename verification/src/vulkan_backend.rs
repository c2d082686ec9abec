use vstd::prelude::*;

use crate::geometry::ScaleFactor;

verus! {

/// What the delegated Vulkan renderer library is configured with: a logical
/// (DPI-scaled) coordinate system, and its debug validation layer.
#[derive(Clone, Copy, PartialEq, Eq, Structural, Debug)]
pub struct VulkanConfig {
    pub logical_coordinate_system: bool,
    pub debug_layer: bool,
}

pub open spec fn spec_vulkan_config() -> VulkanConfig {
    VulkanConfig { logical_coordinate_system: true, debug_layer: true }
}

/// The fixed configuration the embedder hands to the delegated Vulkan
/// renderer library when it builds the renderer.
pub fn vulkan_config() -> (c: VulkanConfig)
    ensures
        c == spec_vulkan_config(),
{
    VulkanConfig { logical_coordinate_system: true, debug_layer: true }
}

/// Why the delegated Vulkan renderer library could not be built: a driver
/// absent, an extension missing, a surface creation failure — whatever the
/// library reported, carried as its description. Recoverable: it triggers
/// the fallback to the GL backend and is never surfaced to the caller.
#[derive(Clone, PartialEq, Eq, Debug)]
pub struct VulkanInitError {
    pub description: String,
}

/// Why the delegated Vulkan renderer library failed to present a frame,
/// carried as its description. Surfaced to the caller tagged as a Vulkan
/// presentation error.
#[derive(Clone, PartialEq, Eq, Debug)]
pub struct VulkanDrawError {
    pub description: String,
}

/// The Vulkan-backed renderer's bookkeeping. Window, device, swapchain and
/// render target all live inside the delegated library, which also rebuilds
/// them on resize; what remains to track here is the configuration it was
/// built with and the window's scale factor.
#[derive(Clone, Copy)]
pub struct SkulpinRenderer {
    pub config: VulkanConfig,
    pub scale: ScaleFactor,
}

impl SkulpinRenderer {
    /// Builds the renderer's state once the embedder has constructed the
    /// delegated library's renderer with the fixed configuration.
    pub fn new(scale: ScaleFactor) -> (r: SkulpinRenderer)
        ensures
            r == (SkulpinRenderer { config: spec_vulkan_config(), scale }),
    {
        SkulpinRenderer { config: vulkan_config(), scale }
    }

    /// The window's scale factor as last reported by the host.
    pub fn scale_factor(&self) -> (s: ScaleFactor)
        ensures
            s == self.scale,
    {
        self.scale
    }

    /// Records a new scale factor reported by the host window. The delegated
    /// library reads the scale at every draw, so nothing else moves.
    pub fn set_scale_factor(&mut self, scale: ScaleFactor)
        ensures
            *final(self) == (SkulpinRenderer { scale, ..*old(self) }),
    {
        self.scale = scale;
    }
}

} // verus!
