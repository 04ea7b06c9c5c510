//! The choices made while the rendering context is set up: which queue
//! family draws, how the surface's images are configured, and what size
//! everything that depends on the surface takes.

use vstd::prelude::*;

verus! {

/// Why the rendering context cannot be set up.
#[derive(Clone, Copy, Debug, PartialEq, Eq, Structural)]
pub enum SetupError {
    /// No queue family can both draw and present to the surface.
    NoQueueFamily,
    /// The surface supports no image format.
    NoSurfaceFormat,
    /// The surface supports no way of compositing alpha.
    NoCompositeAlpha,
}

/// What is known of a queue family of the device.
#[derive(Clone, Copy, Debug, PartialEq, Eq, Structural)]
pub struct QueueFamily {
    /// The family executes graphics commands.
    pub supports_graphics: bool,
    /// Whether the family can present to the surface; `None` when the
    /// driver could not tell.
    pub supports_surface: Option<bool>,
}

impl QueueFamily {
    /// The family can draw and present. A family of which the driver could
    /// not tell counts as one that cannot present.
    pub open spec fn usable(self) -> bool {
        self.supports_graphics && self.supports_surface == Some(true)
    }

    /// Whether the family can draw and present.
    pub fn is_usable(&self) -> (usable: bool)
        ensures
            usable == self.usable(),
    {
        self.supports_graphics && match self.supports_surface {
            Some(supported) => supported,
            None => false,
        }
    }
}

/// Whether `index` is the first usable family of `families`.
pub open spec fn first_usable(families: Seq<QueueFamily>, index: int) -> bool {
    &&& 0 <= index < families.len()
    &&& families[index].usable()
    &&& forall|j: int| 0 <= j < index ==> !(#[trigger] families[j]).usable()
}

/// Picks the first queue family that can draw and present.
pub fn select_queue_family(families: &[QueueFamily]) -> (r: Result<usize, SetupError>)
    ensures
        match r {
            Ok(index) => first_usable(families@, index as int),
            Err(error) => error == SetupError::NoQueueFamily && forall|j: int|
                0 <= j < families@.len() ==> !(#[trigger] families@[j]).usable(),
        },
{
    let mut i: usize = 0;
    while i < families.len()
        invariant
            i <= families.len(),
            forall|j: int| 0 <= j < i ==> !(#[trigger] families@[j]).usable(),
        decreases families.len() - i,
    {
        if families[i].is_usable() {
            return Ok(i);
        }
        i = i + 1;
    }
    Err(SetupError::NoQueueFamily)
}

/// How the alpha of the surface is combined with what lies behind the
/// window.
#[derive(Clone, Copy, Debug, PartialEq, Eq, Structural)]
pub enum CompositeAlpha {
    Opaque,
    PreMultiplied,
    PostMultiplied,
    Inherit,
}

/// The ways of compositing alpha that a surface supports.
#[derive(Clone, Copy, Debug, PartialEq, Eq, Structural)]
pub struct AlphaSupport {
    pub opaque: bool,
    pub pre_multiplied: bool,
    pub post_multiplied: bool,
    pub inherit: bool,
}

impl AlphaSupport {
    /// Whether the surface supports `mode`.
    pub open spec fn supports(self, mode: CompositeAlpha) -> bool {
        match mode {
            CompositeAlpha::Opaque => self.opaque,
            CompositeAlpha::PreMultiplied => self.pre_multiplied,
            CompositeAlpha::PostMultiplied => self.post_multiplied,
            CompositeAlpha::Inherit => self.inherit,
        }
    }

    /// The first supported mode in the order opaque, pre-multiplied,
    /// post-multiplied, inherit.
    pub open spec fn preferred(self) -> Option<CompositeAlpha> {
        if self.opaque {
            Some(CompositeAlpha::Opaque)
        } else if self.pre_multiplied {
            Some(CompositeAlpha::PreMultiplied)
        } else if self.post_multiplied {
            Some(CompositeAlpha::PostMultiplied)
        } else if self.inherit {
            Some(CompositeAlpha::Inherit)
        } else {
            None
        }
    }

    /// Picks the first supported mode.
    pub fn first(&self) -> (mode: Option<CompositeAlpha>)
        ensures
            mode == self.preferred(),
            mode matches Some(m) ==> self.supports(m),
            mode is None ==> forall|m: CompositeAlpha| !self.supports(m),
    {
        if self.opaque {
            Some(CompositeAlpha::Opaque)
        } else if self.pre_multiplied {
            Some(CompositeAlpha::PreMultiplied)
        } else if self.post_multiplied {
            Some(CompositeAlpha::PostMultiplied)
        } else if self.inherit {
            Some(CompositeAlpha::Inherit)
        } else {
            None
        }
    }
}

/// What a surface can do, as far as the viewer asks.
#[derive(Clone, Copy, Debug, PartialEq, Eq, Structural)]
pub struct SurfaceCaps {
    /// The fewest images a swapchain on this surface may have.
    pub min_image_count: u32,
    /// Number of image formats the surface supports, in the driver's order.
    pub format_count: usize,
    /// The ways of compositing alpha the surface supports.
    pub alpha: AlphaSupport,
}

/// Width and height in pixels.
#[derive(Clone, Copy, Debug, PartialEq, Eq, Structural)]
pub struct Extent {
    pub width: u32,
    pub height: u32,
}

impl Extent {
    /// An extent without area: nothing can be presented to it.
    pub open spec fn degenerate(self) -> bool {
        self.width == 0 || self.height == 0
    }

    /// Whether the extent has no area.
    pub fn is_degenerate(&self) -> (degenerate: bool)
        ensures
            degenerate == self.degenerate(),
    {
        self.width == 0 || self.height == 0
    }
}

/// How the images of the surface are configured.
#[derive(Clone, Copy, Debug, PartialEq, Eq, Structural)]
pub struct SwapchainPlan {
    /// Number of images to ask for.
    pub image_count: u32,
    /// Which of the supported formats to use, counted in the driver's order.
    pub format_index: usize,
    /// How alpha is composited.
    pub composite_alpha: CompositeAlpha,
    /// Size of the images.
    pub extent: Extent,
}

/// The configuration for a surface: as few images as it allows, its first
/// format, its first way of compositing alpha, at the size of the window.
pub open spec fn swapchain_for(caps: SurfaceCaps, window: Extent) -> Result<
    SwapchainPlan,
    SetupError,
> {
    if caps.format_count == 0 {
        Err(SetupError::NoSurfaceFormat)
    } else {
        match caps.alpha.preferred() {
            None => Err(SetupError::NoCompositeAlpha),
            Some(composite_alpha) => Ok(
                SwapchainPlan {
                    image_count: caps.min_image_count,
                    format_index: 0,
                    composite_alpha,
                    extent: window,
                },
            ),
        }
    }
}

/// Configures the images of a surface for a window.
pub fn plan_swapchain(caps: SurfaceCaps, window: Extent) -> (plan: Result<
    SwapchainPlan,
    SetupError,
>)
    ensures
        plan == swapchain_for(caps, window),
{
    if caps.format_count == 0 {
        return Err(SetupError::NoSurfaceFormat);
    }
    match caps.alpha.first() {
        None => Err(SetupError::NoCompositeAlpha),
        Some(composite_alpha) => Ok(
            SwapchainPlan {
                image_count: caps.min_image_count,
                format_index: 0,
                composite_alpha,
                extent: window,
            },
        ),
    }
}

/// What is built anew whenever the surface changes size.
#[derive(Clone, Copy, Debug, PartialEq, Eq, Structural)]
pub struct SizeDependentPlan {
    /// Size of the depth buffer and of the viewport, whose origin is the
    /// top left corner.
    pub extent: Extent,
    /// Number of framebuffers: one for every image, all sharing the depth
    /// buffer.
    pub framebuffer_count: usize,
}

/// Everything that depends on the size of the surface takes the size of
/// its first image, and every image gets a framebuffer. A surface without
/// images has nothing to size.
pub open spec fn size_dependent(images: Seq<Extent>) -> Option<SizeDependentPlan> {
    if images.len() == 0 {
        None
    } else {
        Some(SizeDependentPlan { extent: images[0], framebuffer_count: images.len() as usize })
    }
}

/// Sizes what depends on the surface from the sizes of its images.
pub fn window_size_dependent_setup(images: &[Extent]) -> (plan: Option<SizeDependentPlan>)
    ensures
        plan == size_dependent(images@),
{
    if images.len() == 0 {
        None
    } else {
        Some(SizeDependentPlan { extent: images[0], framebuffer_count: images.len() })
    }
}

} // verus!
