//! The work of one frame: the uniform upload into the slot's staging memory
//! and the commands recorded for the acquired image.

use vstd::prelude::*;
use crate::surface::Extent2D;
use crate::swapchain::Swapchain;

verus! {

/// Size in bytes of the per-frame uniform block: one 4x4 matrix of `f32`.
pub const GLOBALS_SIZE: usize = 64;

/// Layout of a swapchain image.
#[derive(Clone, Copy, Debug, PartialEq, Eq, Structural)]
pub enum ImageLayout {
    Undefined,
    ColorAttachmentOptimal,
    PresentSrc,
}

/// Pipeline stage named by a barrier.
#[derive(Clone, Copy, Debug, PartialEq, Eq, Structural)]
pub enum PipelineStage {
    TopOfPipe,
    ColorAttachmentOutput,
    BottomOfPipe,
}

/// Memory access named by a barrier.
#[derive(Clone, Copy, Debug, PartialEq, Eq, Structural)]
pub enum Access {
    Nothing,
    ColorAttachmentWrite,
}

/// One command of a frame's command buffer.
#[derive(Clone, Copy, Debug, PartialEq, Eq, Structural)]
pub enum Command {
    /// A layout transition of a whole single-level, single-layer colour image.
    ImageBarrier {
        image: u64,
        src_stage: PipelineStage,
        dst_stage: PipelineStage,
        src_access: Access,
        dst_access: Access,
        old_layout: ImageLayout,
        new_layout: ImageLayout,
    },
    /// Dynamic rendering into one colour attachment over the whole extent,
    /// cleared on load and stored at the end.
    BeginRendering { view: u64, extent: Extent2D },
    SetViewport { extent: Extent2D },
    SetScissor { extent: Extent2D },
    /// Binds the vertex and fragment shader objects.
    BindShaders,
    SetTriangleListTopology,
    Draw { vertex_count: u32, instance_count: u32, first_vertex: u32, first_instance: u32 },
    EndRendering,
}

/// The commands that draw one frame into `image` through `view`: transition
/// to colour attachment, render pass over the full extent with matching
/// viewport and scissor, bound shaders, one triangle, end of the pass, and
/// transition to the presentation layout.
pub open spec fn frame_commands(image: u64, view: u64, extent: Extent2D) -> Seq<Command> {
    seq![
        Command::ImageBarrier {
            image,
            src_stage: PipelineStage::TopOfPipe,
            dst_stage: PipelineStage::ColorAttachmentOutput,
            src_access: Access::Nothing,
            dst_access: Access::ColorAttachmentWrite,
            old_layout: ImageLayout::Undefined,
            new_layout: ImageLayout::ColorAttachmentOptimal,
        },
        Command::BeginRendering { view, extent },
        Command::SetViewport { extent },
        Command::SetScissor { extent },
        Command::BindShaders,
        Command::SetTriangleListTopology,
        Command::Draw { vertex_count: 3, instance_count: 1, first_vertex: 0, first_instance: 0 },
        Command::EndRendering,
        Command::ImageBarrier {
            image,
            src_stage: PipelineStage::ColorAttachmentOutput,
            dst_stage: PipelineStage::BottomOfPipe,
            src_access: Access::ColorAttachmentWrite,
            dst_access: Access::Nothing,
            old_layout: ImageLayout::ColorAttachmentOptimal,
            new_layout: ImageLayout::PresentSrc,
        },
    ]
}

/// The commands for image `image` of `swapchain`, drawn at the swapchain's
/// extent; `None` where the swapchain has no such image.
pub fn record_frame(swapchain: &Swapchain, image: u32) -> (r: Option<Vec<Command>>)
    requires
        swapchain.wf(),
    ensures
        image >= swapchain@.images.len() ==> r is None,
        image < swapchain@.images.len() ==> (r matches Some(c) && c@ == frame_commands(
            swapchain@.images[image as int],
            swapchain@.views[image as int],
            swapchain@.config.extent,
        )),
{
    let i = image as usize;
    if i >= swapchain.present_images().len() {
        return None;
    }
    let target = swapchain.present_images()[i];
    let view = swapchain.present_image_views()[i];
    let extent = swapchain.extent();
    let commands = vec![
        Command::ImageBarrier {
            image: target,
            src_stage: PipelineStage::TopOfPipe,
            dst_stage: PipelineStage::ColorAttachmentOutput,
            src_access: Access::Nothing,
            dst_access: Access::ColorAttachmentWrite,
            old_layout: ImageLayout::Undefined,
            new_layout: ImageLayout::ColorAttachmentOptimal,
        },
        Command::BeginRendering { view, extent },
        Command::SetViewport { extent },
        Command::SetScissor { extent },
        Command::BindShaders,
        Command::SetTriangleListTopology,
        Command::Draw { vertex_count: 3, instance_count: 1, first_vertex: 0, first_instance: 0 },
        Command::EndRendering,
        Command::ImageBarrier {
            image: target,
            src_stage: PipelineStage::ColorAttachmentOutput,
            dst_stage: PipelineStage::BottomOfPipe,
            src_access: Access::ColorAttachmentWrite,
            dst_access: Access::Nothing,
            old_layout: ImageLayout::ColorAttachmentOptimal,
            new_layout: ImageLayout::PresentSrc,
        },
    ];
    assert(commands@ =~= frame_commands(target, view, extent));
    Some(commands)
}

/// Writes `globals` at the start of a slot's mapped staging memory and
/// leaves the rest as it was. Returns `false`, writing nothing, where the
/// block does not fit.
pub fn upload_globals(staging: &mut [u8], globals: &[u8]) -> (r: bool)
    ensures
        r == (globals@.len() <= old(staging)@.len()),
        r ==> final(staging)@ == globals@ + old(staging)@.subrange(
            globals@.len() as int,
            old(staging)@.len() as int,
        ),
        !r ==> final(staging)@ == old(staging)@,
{
    if globals.len() > staging.len() {
        return false;
    }
    let mut i: usize = 0;
    while i < globals.len()
        invariant
            i <= globals@.len() <= old(staging)@.len(),
            staging@.len() == old(staging)@.len(),
            forall|j: int| 0 <= j < i ==> staging@[j] == globals@[j],
            forall|j: int| i <= j < staging@.len() ==> staging@[j] == old(staging)@[j],
        decreases globals@.len() - i,
    {
        staging[i] = globals[i];
        i = i + 1;
    }
    assert(staging@ =~= globals@ + old(staging)@.subrange(
        globals@.len() as int,
        old(staging)@.len() as int,
    ));
    true
}

} // verus!
