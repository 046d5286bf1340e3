//! What a presentation surface reports about itself, held as plain values.
//!
//! Vulkan enum values (formats, colour spaces, present modes) are kept as
//! their raw integers, and flag sets as their raw bit masks.

use vstd::prelude::*;

verus! {

/// `VK_PRESENT_MODE_MAILBOX_KHR`: low-latency presentation without tearing.
pub const PRESENT_MODE_MAILBOX: i32 = 1;

/// `VK_PRESENT_MODE_FIFO_KHR`: the one present mode every surface supports.
pub const PRESENT_MODE_FIFO: i32 = 2;

/// `VK_SURFACE_TRANSFORM_IDENTITY_BIT_KHR`.
pub const TRANSFORM_IDENTITY: u32 = 1;

/// Width of a surface's current extent when the window system lets the
/// swapchain choose the extent.
pub const UNDEFINED_EXTENT: u32 = 0xFFFF_FFFF;

/// Width and height of an image region, in pixels.
#[derive(Clone, Copy, Debug, PartialEq, Eq, Structural)]
pub struct Extent2D {
    pub width: u32,
    pub height: u32,
}

/// One pixel format together with the colour space it is presented in.
#[derive(Clone, Copy, Debug, PartialEq, Eq, Structural)]
pub struct SurfaceFormat {
    pub format: i32,
    pub color_space: i32,
}

/// The surface capabilities that swapchain creation reads.
#[derive(Clone, Copy, Debug, PartialEq, Eq, Structural)]
pub struct SurfaceCapabilities {
    pub min_image_count: u32,
    /// Zero when the surface puts no upper bound on the image count.
    pub max_image_count: u32,
    /// Has width `UNDEFINED_EXTENT` when the swapchain picks the extent.
    pub current_extent: Extent2D,
    pub supported_transforms: u32,
    pub current_transform: u32,
}

/// Everything a surface answers to a capability query on one device.
#[derive(Debug)]
pub struct SurfaceInfo {
    pub capabilities: SurfaceCapabilities,
    /// Supported formats, in the order the driver returned them.
    pub formats: Vec<SurfaceFormat>,
    /// Supported present modes, in the order the driver returned them.
    pub present_modes: Vec<i32>,
}

} // verus!
