//! What the driving loop does before a render call when the swapchain may
//! be stale.

use vstd::prelude::*;

verus! {

/// The loop's step for one redraw.
#[derive(Clone, Copy, Debug, PartialEq, Eq, Structural)]
pub enum FrameAction {
    /// Render with the current swapchain.
    Render,
    /// Rebuild the swapchain at this size, then render.
    RecreateThenRender { width: u32, height: u32 },
    /// The window has no drawable area: skip the frame, stay dirty.
    Skip,
}

/// Before a redraw: a clean swapchain is rendered with; a dirty one is
/// rebuilt at the window's current size, unless that size is empty (a
/// minimized window), in which case the frame is skipped. Any number of
/// resizes before a redraw thus lead to a single rebuild.
pub fn frame_action(dirty: bool, width: u32, height: u32) -> (r: FrameAction)
    ensures
        !dirty ==> r == FrameAction::Render,
        dirty && width > 0 && height > 0 ==> r == (FrameAction::RecreateThenRender {
            width,
            height,
        }),
        dirty && (width == 0 || height == 0) ==> r == FrameAction::Skip,
{
    if !dirty {
        FrameAction::Render
    } else if width > 0 && height > 0 {
        FrameAction::RecreateThenRender { width, height }
    } else {
        FrameAction::Skip
    }
}

} // verus!
