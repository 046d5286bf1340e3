//! Frame-lifecycle logic of a real-time Vulkan renderer: swapchain
//! configuration and ownership, the ring of frames in flight with its fence
//! discipline, and the commands recorded for one frame.
//!
//! Every driver call is made by the embedding program; this crate decides
//! what those calls are and in which order, and keeps track of which handles
//! are alive.

pub mod surface;
pub mod swapchain;
pub mod renderer;
pub mod record;
pub mod device;
pub mod resize;
pub mod shaders;
