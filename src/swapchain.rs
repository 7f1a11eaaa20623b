use vstd::prelude::*;

use crate::queues::QueueFamilyIndices;

verus! {

/// Raw code of the `B8G8R8_SRGB` image format.
pub const FORMAT_B8G8R8_SRGB: i32 = 36;

/// Raw code of the `SRGB_NONLINEAR` color space.
pub const COLOR_SPACE_SRGB_NONLINEAR: i32 = 0;

/// Raw code of the low-latency triple-buffered present mode.
pub const PRESENT_MODE_MAILBOX: i32 = 1;

/// Raw code of the first-in first-out present mode, which every driver offers.
pub const PRESENT_MODE_FIFO: i32 = 2;

/// Value of `current_extent.width` meaning that the surface size is decided
/// by the swapchain.
pub const EXTENT_UNDEFINED: u32 = 0xFFFF_FFFF;

/// Width and height of an image, in pixels.
#[derive(Clone, Copy, Debug, PartialEq, Eq, Structural)]
pub struct Extent2D {
    pub width: u32,
    pub height: u32,
}

/// An image format together with its color space.
#[derive(Clone, Copy, Debug, PartialEq, Eq, Structural)]
pub struct SurfaceFormat {
    pub format: i32,
    pub color_space: i32,
}

/// What a surface reports it can do for a given device.
#[derive(Clone, Copy, Debug, PartialEq, Eq, Structural)]
pub struct SurfaceCapabilities {
    pub min_image_count: u32,
    /// Zero means that there is no upper bound.
    pub max_image_count: u32,
    pub current_extent: Extent2D,
    pub min_image_extent: Extent2D,
    pub max_image_extent: Extent2D,
    /// Raw bits of the surface's current pre-transform.
    pub current_transform: u32,
}

/// Snapshot of a device's support for a surface.
#[derive(Clone, Debug)]
pub struct SwapchainSupport {
    pub capabilities: SurfaceCapabilities,
    pub formats: Vec<SurfaceFormat>,
    /// Raw present mode codes.
    pub present_modes: Vec<i32>,
}

/// Whether swapchain images are owned by one queue family at a time.
#[derive(Clone, Copy, Debug, PartialEq, Eq, Structural)]
pub enum SharingMode {
    Exclusive,
    Concurrent,
}

/// Concrete swapchain parameters chosen from a support snapshot.
#[derive(Clone, Debug)]
pub struct SwapchainConfig {
    pub format: i32,
    pub color_space: i32,
    pub present_mode: i32,
    pub extent: Extent2D,
    pub image_count: u32,
    pub sharing_mode: SharingMode,
    /// Families that share the images; empty when sharing is exclusive.
    pub queue_family_indices: Vec<u32>,
    /// Raw bits of the pre-transform, taken from the capabilities.
    pub pre_transform: u32,
}

pub open spec fn preferred_format() -> SurfaceFormat {
    SurfaceFormat { format: FORMAT_B8G8R8_SRGB, color_space: COLOR_SPACE_SRGB_NONLINEAR }
}

/// The preferred format when it is offered, else the first one offered.
pub open spec fn chosen_format(formats: Seq<SurfaceFormat>) -> SurfaceFormat {
    if formats.contains(preferred_format()) {
        preferred_format()
    } else {
        formats[0]
    }
}

/// Mailbox when it is offered, else FIFO.
pub open spec fn chosen_present_mode(modes: Seq<i32>) -> i32 {
    if modes.contains(PRESENT_MODE_MAILBOX) {
        PRESENT_MODE_MAILBOX
    } else {
        PRESENT_MODE_FIFO
    }
}

/// `v` brought into `[lo, hi]`.
pub open spec fn clamp_u32(v: u32, lo: u32, hi: u32) -> u32 {
    if v < lo {
        lo
    } else if v > hi {
        hi
    } else {
        v
    }
}

/// The bounds are usable for clamping: each minimum is at most its maximum.
pub open spec fn extent_bounds_ordered(caps: SurfaceCapabilities) -> bool {
    caps.min_image_extent.width <= caps.max_image_extent.width
        && caps.min_image_extent.height <= caps.max_image_extent.height
}

/// The surface's current extent when it is defined; otherwise the window
/// size clamped into the bounds, each axis on its own.
pub open spec fn chosen_extent(window: Extent2D, caps: SurfaceCapabilities) -> Extent2D {
    if caps.current_extent.width != EXTENT_UNDEFINED {
        caps.current_extent
    } else {
        Extent2D {
            width: clamp_u32(window.width, caps.min_image_extent.width, caps.max_image_extent.width),
            height: clamp_u32(
                window.height,
                caps.min_image_extent.height,
                caps.max_image_extent.height,
            ),
        }
    }
}

/// One more image than the minimum, lowered to the maximum when that is
/// nonzero and smaller.
pub open spec fn chosen_image_count(caps: SurfaceCapabilities) -> int {
    if caps.max_image_count != 0 && (caps.max_image_count as int) < caps.min_image_count + 1 {
        caps.max_image_count as int
    } else {
        caps.min_image_count + 1
    }
}

/// Concurrent sharing between both families when they differ, else exclusive.
pub open spec fn chosen_sharing(indices: QueueFamilyIndices) -> (SharingMode, Seq<u32>) {
    if indices.graphics != indices.present {
        (SharingMode::Concurrent, seq![indices.graphics, indices.present])
    } else {
        (SharingMode::Exclusive, Seq::<u32>::empty())
    }
}

/// Picks the surface format: the preferred pair if offered, else the first.
pub fn get_swapchain_surface_format(formats: &Vec<SurfaceFormat>) -> (r: SurfaceFormat)
    requires
        formats@.len() > 0,
    ensures
        r == chosen_format(formats@),
{
    let mut i: usize = 0;
    while i < formats.len()
        invariant
            i <= formats@.len(),
            forall|j: int| 0 <= j < i ==> #[trigger] formats@[j] != preferred_format(),
        decreases formats@.len() - i,
    {
        let f = formats[i];
        if f.format == FORMAT_B8G8R8_SRGB && f.color_space == COLOR_SPACE_SRGB_NONLINEAR {
            assert(formats@.contains(preferred_format())) by {
                assert(formats@[i as int] == preferred_format());
            }
            return f;
        }
        i += 1;
    }
    formats[0]
}

/// Picks the present mode: mailbox if offered, else FIFO.
pub fn get_swapchain_present_mode(present_modes: &Vec<i32>) -> (r: i32)
    ensures
        r == chosen_present_mode(present_modes@),
{
    let mut i: usize = 0;
    while i < present_modes.len()
        invariant
            i <= present_modes@.len(),
            forall|j: int| 0 <= j < i ==> #[trigger] present_modes@[j] != PRESENT_MODE_MAILBOX,
        decreases present_modes@.len() - i,
    {
        if present_modes[i] == PRESENT_MODE_MAILBOX {
            assert(present_modes@.contains(PRESENT_MODE_MAILBOX)) by {
                assert(present_modes@[i as int] == PRESENT_MODE_MAILBOX);
            }
            return PRESENT_MODE_MAILBOX;
        }
        i += 1;
    }
    PRESENT_MODE_FIFO
}

fn clamp(v: u32, lo: u32, hi: u32) -> (r: u32)
    requires
        lo <= hi,
    ensures
        r == clamp_u32(v, lo, hi),
        lo <= r <= hi,
{
    if v < lo {
        lo
    } else if v > hi {
        hi
    } else {
        v
    }
}

/// Picks the image extent from the surface capabilities and the window's
/// current size in pixels.
pub fn get_swapchain_extent(window_size: Extent2D, capabilities: &SurfaceCapabilities) -> (r:
    Extent2D)
    requires
        capabilities.current_extent.width == EXTENT_UNDEFINED ==> extent_bounds_ordered(
            *capabilities,
        ),
    ensures
        r == chosen_extent(window_size, *capabilities),
        capabilities.current_extent.width == EXTENT_UNDEFINED ==> {
            &&& capabilities.min_image_extent.width <= r.width
                <= capabilities.max_image_extent.width
            &&& capabilities.min_image_extent.height <= r.height
                <= capabilities.max_image_extent.height
        },
{
    if capabilities.current_extent.width != EXTENT_UNDEFINED {
        capabilities.current_extent
    } else {
        Extent2D {
            width: clamp(
                window_size.width,
                capabilities.min_image_extent.width,
                capabilities.max_image_extent.width,
            ),
            height: clamp(
                window_size.height,
                capabilities.min_image_extent.height,
                capabilities.max_image_extent.height,
            ),
        }
    }
}

/// Number of swapchain images to ask for.
pub fn get_swapchain_image_count(capabilities: &SurfaceCapabilities) -> (r: u32)
    requires
        capabilities.min_image_count < u32::MAX,
    ensures
        r == chosen_image_count(*capabilities),
        capabilities.max_image_count != 0 && capabilities.min_image_count
            <= capabilities.max_image_count ==> capabilities.min_image_count <= r
            <= capabilities.max_image_count,
{
    let mut image_count = capabilities.min_image_count + 1;
    if capabilities.max_image_count != 0 && capabilities.max_image_count < image_count {
        image_count = capabilities.max_image_count;
    }
    image_count
}

/// Sharing mode and the list of families that share the images.
pub fn get_swapchain_sharing(indices: &QueueFamilyIndices) -> (r: (SharingMode, Vec<u32>))
    ensures
        (r.0, r.1@) == chosen_sharing(*indices),
        r.0 == SharingMode::Concurrent <==> indices.graphics != indices.present,
        r.1@.len() == 0 <==> r.0 == SharingMode::Exclusive,
{
    let mut queue_family_indices: Vec<u32> = Vec::new();
    if indices.graphics != indices.present {
        queue_family_indices.push(indices.graphics);
        queue_family_indices.push(indices.present);
        assert(queue_family_indices@ =~= seq![indices.graphics, indices.present]);
        (SharingMode::Concurrent, queue_family_indices)
    } else {
        assert(queue_family_indices@ =~= Seq::<u32>::empty());
        (SharingMode::Exclusive, queue_family_indices)
    }
}

/// The support snapshot admits a swapchain to be negotiated from it.
pub open spec fn negotiable(support: SwapchainSupport) -> bool {
    &&& support.formats@.len() > 0
    &&& support.capabilities.min_image_count < u32::MAX
    &&& support.capabilities.current_extent.width == EXTENT_UNDEFINED ==> extent_bounds_ordered(
        support.capabilities,
    )
}

/// Applies the fixed preference policy to a support snapshot.
pub fn negotiate_swapchain(
    support: &SwapchainSupport,
    indices: &QueueFamilyIndices,
    window_size: Extent2D,
) -> (r: SwapchainConfig)
    requires
        negotiable(*support),
    ensures
        r.format == chosen_format(support.formats@).format,
        r.color_space == chosen_format(support.formats@).color_space,
        r.present_mode == chosen_present_mode(support.present_modes@),
        r.extent == chosen_extent(window_size, support.capabilities),
        r.image_count == chosen_image_count(support.capabilities),
        (r.sharing_mode, r.queue_family_indices@) == chosen_sharing(*indices),
        r.pre_transform == support.capabilities.current_transform,
        r.sharing_mode == SharingMode::Concurrent <==> indices.graphics != indices.present,
        r.queue_family_indices@.len() == 0 <==> r.sharing_mode == SharingMode::Exclusive,
        support.capabilities.max_image_count != 0 && support.capabilities.min_image_count
            <= support.capabilities.max_image_count ==> support.capabilities.min_image_count
            <= r.image_count <= support.capabilities.max_image_count,
        support.capabilities.current_extent.width == EXTENT_UNDEFINED ==> {
            &&& support.capabilities.min_image_extent.width <= r.extent.width
                <= support.capabilities.max_image_extent.width
            &&& support.capabilities.min_image_extent.height <= r.extent.height
                <= support.capabilities.max_image_extent.height
        },
{
    let surface_format = get_swapchain_surface_format(&support.formats);
    let present_mode = get_swapchain_present_mode(&support.present_modes);
    let extent = get_swapchain_extent(window_size, &support.capabilities);
    let image_count = get_swapchain_image_count(&support.capabilities);
    let (sharing_mode, queue_family_indices) = get_swapchain_sharing(indices);
    SwapchainConfig {
        format: surface_format.format,
        color_space: surface_format.color_space,
        present_mode,
        extent,
        image_count,
        sharing_mode,
        queue_family_indices,
        pre_transform: support.capabilities.current_transform,
    }
}

} // verus!
