//! Swapchain configuration and the per-image frame targets.
//!
//! The configuration is a pure function of the reported surface capabilities
//! and the requested window extent: the capability-reported minimum image
//! count, the clamped extent, a fixed color format, and mailbox presentation
//! whenever the surface supports it.

use vstd::prelude::*;

verus! {

/// A window or surface size in pixels.
#[derive(Clone, Copy, Debug, PartialEq, Eq, Structural)]
pub struct Extent2d {
    pub width: u32,
    pub height: u32,
}

/// How presentation requests are scheduled.
#[derive(Clone, Copy, Debug, PartialEq, Eq, Structural)]
pub enum PresentMode {
    /// Triple-buffered, non-blocking present; preferred.
    Mailbox,
    /// Queued vsync present; always available as the fallback.
    Fifo,
}

/// The one color format the harness renders in.
#[derive(Clone, Copy, Debug, PartialEq, Eq, Structural)]
pub enum ColorFormat {
    Rgba8Srgb,
}

/// What the surface reports about swapchains it can back.
#[derive(Clone, Copy, Debug, PartialEq, Eq)]
pub struct SurfaceCaps {
    /// Fewest presentable images a swapchain may have; at least 1.
    pub min_image_count: u32,
    /// Most presentable images a swapchain may have.
    pub max_image_count: u32,
    /// Extent the surface is currently fixed to, if any.
    pub current_extent: Option<Extent2d>,
    /// Smallest supported extent.
    pub min_extent: Extent2d,
    /// Largest supported extent.
    pub max_extent: Extent2d,
    /// Whether mailbox presentation is available.
    pub supports_mailbox: bool,
}

impl SurfaceCaps {
    /// Capability ranges as the surface must report them.
    pub open spec fn wf(self) -> bool {
        &&& 1 <= self.min_image_count <= self.max_image_count
        &&& self.min_extent.width <= self.max_extent.width
        &&& self.min_extent.height <= self.max_extent.height
        &&& match self.current_extent {
            Some(e) => self.min_extent.width <= e.width <= self.max_extent.width
                && self.min_extent.height <= e.height <= self.max_extent.height,
            None => true,
        }
    }
}

/// The configuration a swapchain is created from.
#[derive(Clone, Copy, Debug, PartialEq, Eq, Structural)]
pub struct SwapchainConfig {
    /// Number of presentable images to request.
    pub image_count: u32,
    /// Pixel extent of every image.
    pub extent: Extent2d,
    /// How presentation is scheduled.
    pub present_mode: PresentMode,
    /// Color format of every image.
    pub format: ColorFormat,
    /// Array layers per image; always one.
    pub image_layers: u32,
}

/// `v` forced into the inclusive range `lo..=hi`.
pub open spec fn spec_clamp_u32(v: u32, lo: u32, hi: u32) -> u32 {
    if v < lo {
        lo
    } else if v > hi {
        hi
    } else {
        v
    }
}

/// The extent the swapchain gets: the surface's fixed extent when it has one,
/// otherwise the requested extent clamped into the supported range.
pub open spec fn spec_swapchain_extent(caps: SurfaceCaps, requested: Extent2d) -> Extent2d {
    match caps.current_extent {
        Some(e) => e,
        None => (Extent2d {
            width: spec_clamp_u32(requested.width, caps.min_extent.width, caps.max_extent.width),
            height: spec_clamp_u32(
                requested.height,
                caps.min_extent.height,
                caps.max_extent.height,
            ),
        }),
    }
}

/// Mailbox when the surface supports it, else the guaranteed fifo mode.
pub open spec fn spec_present_mode(caps: SurfaceCaps) -> PresentMode {
    if caps.supports_mailbox {
        PresentMode::Mailbox
    } else {
        PresentMode::Fifo
    }
}

/// The full configuration derived from the capabilities: the reported minimum
/// image count, the clamped extent, the fixed format, one layer.
pub open spec fn spec_swapchain_config(caps: SurfaceCaps, requested: Extent2d) -> SwapchainConfig {
    SwapchainConfig {
        image_count: caps.min_image_count,
        extent: spec_swapchain_extent(caps, requested),
        present_mode: spec_present_mode(caps),
        format: ColorFormat::Rgba8Srgb,
        image_layers: 1,
    }
}

/// `v` forced into the inclusive range `lo..=hi`.
pub fn clamp_u32(v: u32, lo: u32, hi: u32) -> (r: u32)
    requires
        lo <= hi,
    ensures
        r == spec_clamp_u32(v, lo, hi),
{
    if v < lo {
        lo
    } else if v > hi {
        hi
    } else {
        v
    }
}

/// Builds the swapchain configuration for the given capabilities and window
/// extent. With well-formed capabilities the chosen extent always lies inside
/// the supported range, and the image count is the reported minimum.
pub fn swapchain_config_from_caps(caps: &SurfaceCaps, requested: Extent2d) -> (c: SwapchainConfig)
    requires
        caps.wf(),
    ensures
        c == spec_swapchain_config(*caps, requested),
        caps.min_extent.width <= c.extent.width <= caps.max_extent.width,
        caps.min_extent.height <= c.extent.height <= caps.max_extent.height,
        c.image_count == caps.min_image_count,
{
    let extent = match caps.current_extent {
        Some(e) => e,
        None => Extent2d {
            width: clamp_u32(requested.width, caps.min_extent.width, caps.max_extent.width),
            height: clamp_u32(requested.height, caps.min_extent.height, caps.max_extent.height),
        },
    };
    let present_mode = if caps.supports_mailbox {
        PresentMode::Mailbox
    } else {
        PresentMode::Fifo
    };
    SwapchainConfig {
        image_count: caps.min_image_count,
        extent,
        present_mode,
        format: ColorFormat::Rgba8Srgb,
        image_layers: 1,
    }
}

/// The per-image presentation targets: one 2D color image view and one
/// framebuffer for every presentable image, all recreated together on resize.
#[derive(Clone, Copy, Debug, PartialEq, Eq, Structural)]
pub struct FrameTargets {
    /// Number of presentable images owned by the swapchain.
    pub image_count: usize,
    /// Number of image views; one per image.
    pub view_count: usize,
    /// Number of framebuffers; one per image.
    pub framebuffer_count: usize,
}

impl FrameTargets {
    /// Image view count and framebuffer count always equal the image count.
    pub open spec fn wf(self) -> bool {
        &&& self.view_count == self.image_count
        &&& self.framebuffer_count == self.image_count
    }

    /// Plans the targets for a chain of `image_count` images: one view and one
    /// framebuffer each.
    pub fn new(image_count: usize) -> (t: FrameTargets)
        ensures
            t.wf(),
            t.image_count == image_count,
    {
        FrameTargets { image_count, view_count: image_count, framebuffer_count: image_count }
    }
}

/// The render pass every framebuffer binds to: exactly one color attachment,
/// cleared on load and kept on store, transitioning from an undefined layout
/// to a presentable one, written by a single subpass.
#[derive(Clone, Copy, Debug, PartialEq, Eq, Structural)]
pub struct RenderPassDesc {
    /// Number of color attachments; always one.
    pub color_attachment_count: usize,
    /// Samples per pixel; always one (no multisampling).
    pub samples: u8,
    /// The attachment is cleared when the pass begins.
    pub load_clear: bool,
    /// The attachment's contents are kept when the pass ends.
    pub store_preserve: bool,
    /// The image layout before the pass carries no usable contents.
    pub initial_layout_undefined: bool,
    /// The image ends the pass ready for presentation.
    pub final_layout_present: bool,
    /// Number of subpasses; always one.
    pub subpass_count: usize,
}

/// The one render pass description the harness uses.
pub open spec fn spec_render_pass_desc() -> RenderPassDesc {
    RenderPassDesc {
        color_attachment_count: 1,
        samples: 1,
        load_clear: true,
        store_preserve: true,
        initial_layout_undefined: true,
        final_layout_present: true,
        subpass_count: 1,
    }
}

/// Builds the render pass description.
pub fn render_pass_desc() -> (d: RenderPassDesc)
    ensures
        d == spec_render_pass_desc(),
{
    RenderPassDesc {
        color_attachment_count: 1,
        samples: 1,
        load_clear: true,
        store_preserve: true,
        initial_layout_undefined: true,
        final_layout_present: true,
        subpass_count: 1,
    }
}

} // verus!
