//! Swapchain parameters chosen from a surface's capabilities, and the
//! ownership record of the live chain, its images and their views.

use vstd::prelude::*;
use crate::surface::{
    Extent2D, SurfaceCapabilities, SurfaceFormat, SurfaceInfo, PRESENT_MODE_FIFO,
    PRESENT_MODE_MAILBOX, TRANSFORM_IDENTITY, UNDEFINED_EXTENT,
};

verus! {

/// The parameters a swapchain is built with.
#[derive(Clone, Copy, Debug, PartialEq, Eq, Structural)]
pub struct SwapchainConfig {
    pub format: SurfaceFormat,
    pub image_count: u32,
    pub extent: Extent2D,
    pub pre_transform: u32,
    pub present_mode: i32,
}

/// One more image than the surface's minimum, kept within its maximum
/// (a maximum of zero means there is none).
pub open spec fn desired_image_count(caps: SurfaceCapabilities) -> u32 {
    let base: u32 = if caps.min_image_count < u32::MAX {
        (caps.min_image_count + 1) as u32
    } else {
        caps.min_image_count
    };
    if caps.max_image_count > 0 && base > caps.max_image_count {
        caps.max_image_count
    } else {
        base
    }
}

/// The surface's current extent, or the requested one where the surface
/// leaves the choice to the swapchain.
pub open spec fn resolved_extent(caps: SurfaceCapabilities, width: u32, height: u32) -> Extent2D {
    if caps.current_extent.width == UNDEFINED_EXTENT {
        Extent2D { width, height }
    } else {
        caps.current_extent
    }
}

/// The identity transform where the surface supports it, else the
/// surface's current transform.
pub open spec fn chosen_transform(caps: SurfaceCapabilities) -> u32 {
    if caps.supported_transforms & TRANSFORM_IDENTITY == TRANSFORM_IDENTITY {
        TRANSFORM_IDENTITY
    } else {
        caps.current_transform
    }
}

/// Mailbox where it is offered, else FIFO.
pub open spec fn chosen_present_mode(modes: Seq<i32>) -> i32 {
    if modes.contains(PRESENT_MODE_MAILBOX) {
        PRESENT_MODE_MAILBOX
    } else {
        PRESENT_MODE_FIFO
    }
}

/// The configuration for a surface with at least one format.
pub open spec fn config_of(
    caps: SurfaceCapabilities,
    formats: Seq<SurfaceFormat>,
    modes: Seq<i32>,
    width: u32,
    height: u32,
) -> SwapchainConfig {
    SwapchainConfig {
        format: formats[0],
        image_count: desired_image_count(caps),
        extent: resolved_extent(caps, width, height),
        pre_transform: chosen_transform(caps),
        present_mode: chosen_present_mode(modes),
    }
}

/// The configuration a surface gets for a requested extent; `None` where the
/// surface reports no format at all.
pub open spec fn choose_config_spec(info: SurfaceInfo, width: u32, height: u32) -> Option<
    SwapchainConfig,
> {
    if info.formats@.len() == 0 {
        None
    } else {
        Some(config_of(info.capabilities, info.formats@, info.present_modes@, width, height))
    }
}

fn image_count_for(caps: &SurfaceCapabilities) -> (r: u32)
    ensures
        r == desired_image_count(*caps),
{
    let base: u32 = if caps.min_image_count < u32::MAX {
        caps.min_image_count + 1
    } else {
        caps.min_image_count
    };
    if caps.max_image_count > 0 && base > caps.max_image_count {
        caps.max_image_count
    } else {
        base
    }
}

fn present_mode_for(modes: &Vec<i32>) -> (r: i32)
    ensures
        r == chosen_present_mode(modes@),
{
    let mut i: usize = 0;
    while i < modes.len()
        invariant
            i <= modes@.len(),
            !modes@.subrange(0, i as int).contains(PRESENT_MODE_MAILBOX),
        decreases modes@.len() - i,
    {
        if modes[i] == PRESENT_MODE_MAILBOX {
            assert(modes@.contains(PRESENT_MODE_MAILBOX)) by {
                assert(modes@[i as int] == PRESENT_MODE_MAILBOX);
            }
            return PRESENT_MODE_MAILBOX;
        }
        assert(modes@.subrange(0, i + 1) =~= modes@.subrange(0, i as int).push(modes@[i as int]));
        i = i + 1;
    }
    assert(modes@.subrange(0, i as int) =~= modes@);
    PRESENT_MODE_FIFO
}

/// Chooses the swapchain parameters for `info` and a requested extent: the
/// first reported format, one image more than the minimum within the
/// maximum, the surface's current extent unless it is undefined, the
/// identity transform where supported, and mailbox presentation where
/// offered, FIFO otherwise. `None` exactly when no format is reported.
pub fn choose_config(info: &SurfaceInfo, width: u32, height: u32) -> (r: Option<SwapchainConfig>)
    ensures
        r == choose_config_spec(*info, width, height),
{
    if info.formats.len() == 0 {
        return None;
    }
    let caps = info.capabilities;
    let extent = if caps.current_extent.width == UNDEFINED_EXTENT {
        Extent2D { width, height }
    } else {
        caps.current_extent
    };
    let pre_transform = if caps.supported_transforms & TRANSFORM_IDENTITY == TRANSFORM_IDENTITY {
        TRANSFORM_IDENTITY
    } else {
        caps.current_transform
    };
    Some(
        SwapchainConfig {
            format: info.formats[0],
            image_count: image_count_for(&caps),
            extent,
            pre_transform,
            present_mode: present_mode_for(&info.present_modes),
        },
    )
}


/// Why a swapchain could not be installed.
#[derive(Clone, Copy, Debug, PartialEq, Eq, Structural)]
pub enum SwapchainError {
    /// The previous chain is still alive: destroy it first.
    StillLive,
    /// The chain handle is the null handle.
    NullHandle,
    /// The number of views differs from the number of images.
    ViewCountMismatch,
}

/// The handles to destroy, in this order: every view, then the chain.
#[derive(Debug)]
pub struct Teardown {
    pub views: Vec<u64>,
    pub chain: Option<u64>,
}

/// The abstract state of a swapchain.
pub struct SwapchainView {
    pub chain: Option<u64>,
    pub config: SwapchainConfig,
    pub images: Seq<u64>,
    pub views: Seq<u64>,
}

/// The presentable image chain of a surface, as raw Vulkan handles: the chain
/// itself, its images, and one view per image.
pub struct Swapchain {
    chain: Option<u64>,
    config: SwapchainConfig,
    present_images: Vec<u64>,
    present_image_views: Vec<u64>,
}

/// Views are in one-to-one correspondence with images, and a destroyed chain
/// holds neither.
pub open spec fn view_wf(v: SwapchainView) -> bool {
    &&& v.images.len() == v.views.len()
    &&& v.chain is None ==> v.images.len() == 0
}

/// The state after `destroy`: no chain, no images, no views; the
/// configuration it was built with is kept.
pub open spec fn retired(v: SwapchainView) -> SwapchainView {
    SwapchainView { chain: None, config: v.config, images: Seq::empty(), views: Seq::empty() }
}

/// What `destroy` hands back for destruction: the views, then the chain.
pub open spec fn teardown_of(v: SwapchainView) -> (Seq<u64>, Option<u64>) {
    (v.views, v.chain)
}

/// The error, if any, with which a chain cannot be installed over `v`.
pub open spec fn install_error(
    v: Option<SwapchainView>,
    chain: u64,
    images: Seq<u64>,
    views: Seq<u64>,
) -> Option<SwapchainError> {
    if v matches Some(v) && v.chain is Some {
        Some(SwapchainError::StillLive)
    } else if chain == 0 {
        Some(SwapchainError::NullHandle)
    } else if images.len() != views.len() {
        Some(SwapchainError::ViewCountMismatch)
    } else {
        None
    }
}

/// The state of a freshly installed chain.
pub open spec fn installed(
    config: SwapchainConfig,
    chain: u64,
    images: Seq<u64>,
    views: Seq<u64>,
) -> SwapchainView {
    SwapchainView { chain: Some(chain), config, images, views }
}

impl View for Swapchain {
    type V = SwapchainView;

    closed spec fn view(&self) -> SwapchainView {
        SwapchainView {
            chain: self.chain,
            config: self.config,
            images: self.present_images@,
            views: self.present_image_views@,
        }
    }
}

impl Teardown {
    pub open spec fn spec_pair(&self) -> (Seq<u64>, Option<u64>) {
        (self.views@, self.chain)
    }
}

impl Swapchain {
    /// Valid state: see `view_wf`.
    pub open spec fn wf(&self) -> bool {
        view_wf(self@)
    }

    /// Takes ownership of a chain built with `config`, its images in the
    /// order the driver listed them, and one view for each image.
    pub fn new(config: SwapchainConfig, chain: u64, images: Vec<u64>, views: Vec<u64>) -> (r:
        Result<Swapchain, SwapchainError>)
        ensures
            match install_error(None, chain, images@, views@) {
                Some(e) => r == Err::<Swapchain, SwapchainError>(e),
                None => r matches Ok(s) && s@ == installed(config, chain, images@, views@)
                    && s.wf(),
            },
    {
        if chain == 0 {
            return Err(SwapchainError::NullHandle);
        }
        if images.len() != views.len() {
            return Err(SwapchainError::ViewCountMismatch);
        }
        Ok(
            Swapchain {
                chain: Some(chain),
                config,
                present_images: images,
                present_image_views: views,
            },
        )
    }

    /// Gives up the chain, its images and its views, and returns the handles
    /// that must now be destroyed. Calling it again returns nothing to
    /// destroy.
    pub fn destroy(&mut self) -> (r: Teardown)
        requires
            old(self).wf(),
        ensures
            final(self).wf(),
            final(self)@ == retired(old(self)@),
            r.spec_pair() == teardown_of(old(self)@),
    {
        let mut views: Vec<u64> = Vec::new();
        core::mem::swap(&mut views, &mut self.present_image_views);
        self.present_images = Vec::new();
        let chain = self.chain;
        self.chain = None;
        Teardown { views, chain }
    }

    /// Installs a chain rebuilt with `config` after the previous one was
    /// destroyed. The whole state is replaced at once; on an error nothing
    /// changes.
    pub fn recreate(
        &mut self,
        config: SwapchainConfig,
        chain: u64,
        images: Vec<u64>,
        views: Vec<u64>,
    ) -> (r: Result<(), SwapchainError>)
        requires
            old(self).wf(),
        ensures
            final(self).wf(),
            match install_error(Some(old(self)@), chain, images@, views@) {
                Some(e) => r == Err::<(), SwapchainError>(e) && final(self)@ == old(self)@,
                None => r is Ok && final(self)@ == installed(config, chain, images@, views@),
            },
    {
        if self.chain.is_some() {
            return Err(SwapchainError::StillLive);
        }
        if chain == 0 {
            return Err(SwapchainError::NullHandle);
        }
        if images.len() != views.len() {
            return Err(SwapchainError::ViewCountMismatch);
        }
        self.chain = Some(chain);
        self.config = config;
        self.present_images = images;
        self.present_image_views = views;
        Ok(())
    }

    /// The live chain handle, `None` once destroyed.
    pub fn inner(&self) -> (r: Option<u64>)
        ensures
            r == self@.chain,
    {
        self.chain
    }

    /// The parameters the current chain was built with.
    pub fn config(&self) -> (r: SwapchainConfig)
        ensures
            r == self@.config,
    {
        self.config
    }

    /// The extent of the current chain's images.
    pub fn extent(&self) -> (r: Extent2D)
        ensures
            r == self@.config.extent,
    {
        self.config.extent
    }

    pub fn width(&self) -> (r: u32)
        ensures
            r == self@.config.extent.width,
    {
        self.config.extent.width
    }

    pub fn height(&self) -> (r: u32)
        ensures
            r == self@.config.extent.height,
    {
        self.config.extent.height
    }

    pub fn present_images(&self) -> (r: &Vec<u64>)
        ensures
            r@ == self@.images,
    {
        &self.present_images
    }

    pub fn present_image_views(&self) -> (r: &Vec<u64>)
        ensures
            r@ == self@.views,
    {
        &self.present_image_views
    }
}

/// Recreate atomicity: once a valid chain was destroyed (`teardown_of`
/// hands back its views, then its handle), installing the rebuilt chain
/// replaces the whole state at once, with one view per image and nothing of
/// the old chain left, so nothing old is destroyed twice or left dangling. A chain that is still
/// alive is never replaced.
pub proof fn recreate_atomicity(
    v: SwapchainView,
    config: SwapchainConfig,
    chain: u64,
    images: Seq<u64>,
    views: Seq<u64>,
)
    requires
        view_wf(v),
        chain != 0,
        images.len() == views.len(),
    ensures
        install_error(Some(retired(v)), chain, images, views) is None,
        ({
            let w = installed(config, chain, images, views);
            &&& view_wf(w)
            &&& w.chain == Some(chain)
            &&& w.images == images && w.views == views
            &&& w.config == config
        }),
        teardown_of(retired(v)) == (Seq::<u64>::empty(), None::<u64>),
        v.chain is Some ==> install_error(Some(v), chain, images, views) == Some(
            SwapchainError::StillLive,
        ),
{
}

/// Destroying twice is harmless: the second call finds nothing to destroy
/// and leaves the state as the first left it.
pub proof fn destroy_idempotent(v: SwapchainView)
    requires
        view_wf(v),
    ensures
        view_wf(retired(v)),
        retired(retired(v)) == retired(v),
        teardown_of(retired(v)) == (Seq::<u64>::empty(), None::<u64>),
{
}

} // verus!
