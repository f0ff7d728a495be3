//! Swapchain negotiation and the swapchain's verified state.
//!
//! The surface's capabilities and format list arrive as plain values; the
//! module fixes the parameters of the swapchain to create and pairs every
//! swapchain image with the view built from it.

use vstd::prelude::*;

verus! {

/// A surface extent in pixels.
#[derive(Clone, Copy, Debug, PartialEq, Eq, Structural)]
pub struct Extent2d {
    pub width: u32,
    pub height: u32,
}

/// One supported surface format: a pixel format together with a color space,
/// both as raw graphics-API values.
#[derive(Clone, Copy, Debug, PartialEq, Eq, Structural)]
pub struct SurfaceFormat {
    pub format: i32,
    pub color_space: i32,
}

/// What a surface reports about itself. A `max_image_count` of zero means the
/// surface puts no upper bound on the number of swapchain images.
#[derive(Clone, Copy, Debug, PartialEq, Eq, Structural)]
pub struct SurfaceCapabilities {
    pub min_image_count: u32,
    pub max_image_count: u32,
    pub current_extent: Extent2d,
    /// The surface's current transform, as a raw graphics-API flag value,
    /// passed through to the swapchain unchanged.
    pub current_transform: u32,
}

/// The number of images to request: three, but never fewer than the surface's
/// minimum nor more than its maximum, where a maximum of zero means unbounded.
pub open spec fn spec_image_count(min_count: u32, max_count: u32) -> u32 {
    let requested: u32 = if min_count > 3 { min_count } else { 3 };
    if max_count == 0 {
        requested
    } else if requested > max_count {
        max_count
    } else {
        requested
    }
}

/// Clamp the requested image count of three into the surface's reported
/// bounds. A reported maximum of zero means the surface sets no upper bound.
pub fn resolve_image_count(min_count: u32, max_count: u32) -> (n: u32)
    requires
        max_count == 0 || min_count <= max_count,
    ensures
        n == spec_image_count(min_count, max_count),
{
    let requested: u32 = if min_count > 3 { min_count } else { 3 };
    if max_count == 0 {
        requested
    } else if requested > max_count {
        max_count
    } else {
        requested
    }
}

/// Everything negotiable that the swapchain-creation call needs. The fixed
/// parameters that accompany it — color-attachment usage, exclusive sharing,
/// opaque composite alpha, first-in-first-out present mode — are not
/// negotiated and carry no state.
#[derive(Clone, Copy, Debug, PartialEq, Eq, Structural)]
pub struct SwapchainConfig {
    pub image_count: u32,
    pub format: SurfaceFormat,
    pub extent: Extent2d,
    /// The surface's current transform, passed through unchanged.
    pub pre_transform: u32,
    /// The single queue family the swapchain's images are restricted to.
    pub graphics_family: u32,
    pub image_array_layers: u32,
}

/// Fix the swapchain parameters from what the surface reports: three images
/// clamped into the surface's bounds, the first supported format verbatim,
/// the surface's current extent and transform, a single array layer, and
/// exclusive use by the graphics family.
///
/// A surface always reports at least one supported format and a minimum image
/// count no greater than its maximum (zero standing for "no maximum"); inputs
/// outside that are left out of the contract.
pub fn plan_swapchain(
    caps: &SurfaceCapabilities,
    formats: &Vec<SurfaceFormat>,
    graphics_family: u32,
) -> (c: SwapchainConfig)
    requires
        caps.max_image_count == 0 || caps.min_image_count <= caps.max_image_count,
        formats@.len() > 0,
    ensures
        c.image_count == spec_image_count(caps.min_image_count, caps.max_image_count),
        c.format == formats@[0],
        c.extent == caps.current_extent,
        c.pre_transform == caps.current_transform,
        c.graphics_family == graphics_family,
        c.image_array_layers == 1,
{
    SwapchainConfig {
        image_count: resolve_image_count(caps.min_image_count, caps.max_image_count),
        format: formats[0],
        extent: caps.current_extent,
        pre_transform: caps.current_transform,
        graphics_family,
        image_array_layers: 1,
    }
}

/// One swapchain image paired with the view that was created from it. Handles
/// are the graphics API's raw 64-bit object handles.
#[derive(Clone, Copy, Debug, PartialEq, Eq, Structural)]
pub struct ImageViewBinding {
    pub image: u64,
    pub view: u64,
}

/// The created swapchain: its raw handle, its images, and one view per image.
/// Created once and never recreated; destroyed only at shutdown.
#[derive(Debug)]
pub struct SwapchainState {
    pub handle: u64,
    pub config: SwapchainConfig,
    pub images: Vec<u64>,
    pub image_views: Vec<ImageViewBinding>,
}

impl SwapchainState {
    /// Well-formedness: exactly one view per image, and the view at index `i`
    /// was created from the image at index `i`.
    pub open spec fn wf(&self) -> bool {
        &&& self.image_views@.len() == self.images@.len()
        &&& forall|i: int|
            0 <= i < self.images@.len() ==> self.image_views@[i].image == self.images@[i]
    }

    /// Record a fully successful creation: `views[i]` is the view handle that
    /// was created from `images[i]`. A creation that produced fewer views than
    /// images failed as a whole and never reaches this constructor.
    pub fn assemble(handle: u64, config: SwapchainConfig, images: Vec<u64>, views: Vec<u64>) -> (s:
        SwapchainState)
        requires
            views@.len() == images@.len(),
        ensures
            s.wf(),
            s.handle == handle,
            s.config == config,
            s.images@ == images@,
            s.image_views@.len() == images@.len(),
            forall|i: int|
                0 <= i < images@.len() ==> s.image_views@[i] == (ImageViewBinding {
                    image: images@[i],
                    view: views@[i],
                }),
    {
        let mut bindings: Vec<ImageViewBinding> = Vec::new();
        let mut i: usize = 0;
        while i < images.len()
            invariant
                i <= images@.len(),
                views@.len() == images@.len(),
                bindings@.len() == i,
                forall|j: int|
                    0 <= j < i ==> bindings@[j] == (ImageViewBinding {
                        image: images@[j],
                        view: views@[j],
                    }),
            decreases images@.len() - i,
        {
            bindings.push(ImageViewBinding { image: images[i], view: views[i] });
            i = i + 1;
        }
        SwapchainState { handle, config, images, image_views: bindings }
    }

    /// How many presentable images the swapchain actually has.
    pub fn image_count(&self) -> (n: usize)
        ensures
            n == self.images@.len(),
    {
        self.images.len()
    }
}

} // verus!
