//! Swapchain negotiation: surface format, present mode, extent and image
//! count, combined into a creation plan.
//!
//! Every choice here is a deterministic, total function of the queried
//! surface data; the corresponding `spec` function is the authoritative
//! statement of the policy and each executable chooser is proved equal to
//! it.

use vstd::prelude::*;

verus! {

/// Present mode code for mailbox (triple-buffered, non-blocking) presentation.
pub const PRESENT_MODE_MAILBOX: u32 = 1;

/// Present mode code for FIFO presentation; every conformant implementation
/// supports it, so falling back to it can never fail.
pub const PRESENT_MODE_FIFO: u32 = 2;

/// Format code for an 8-bit-per-channel BGRA format with SRGB encoding.
pub const FORMAT_B8G8R8A8_SRGB: u32 = 50;

/// Color space code for non-linear SRGB.
pub const COLOR_SPACE_SRGB_NONLINEAR: u32 = 0;

/// The sentinel extent component meaning "the surface extent follows the
/// window's framebuffer size".
pub const EXTENT_SENTINEL: u32 = 0xffff_ffff;

/// One supported surface format: a pixel format paired with a color space,
/// both as their API codes.
#[derive(Clone, Copy, Debug, PartialEq, Eq, Structural)]
pub struct SurfaceFormat {
    pub format: u32,
    pub color_space: u32,
}

/// A two-dimensional pixel extent.
#[derive(Clone, Copy, Debug, PartialEq, Eq, Structural)]
pub struct Extent2D {
    pub width: u32,
    pub height: u32,
}

/// The capabilities of a device/surface pairing, queried fresh each time a
/// swapchain is built and never cached across builds.
#[derive(Clone, Copy, Debug, PartialEq, Eq, Structural)]
pub struct SurfaceCapabilities {
    pub min_image_count: u32,
    /// Zero means the surface puts no upper bound on the image count.
    pub max_image_count: u32,
    pub current_extent: Extent2D,
    pub min_extent: Extent2D,
    pub max_extent: Extent2D,
}

/// Whether a surface format is the preferred one: 8 bits per channel with
/// SRGB encoding in a non-linear SRGB color space.
pub open spec fn is_preferred_format(f: SurfaceFormat) -> bool {
    f.format == FORMAT_B8G8R8A8_SRGB && f.color_space == COLOR_SPACE_SRGB_NONLINEAR
}

/// The first preferred format of the list, if any.
pub open spec fn spec_first_preferred(formats: Seq<SurfaceFormat>) -> Option<SurfaceFormat>
    decreases formats.len(),
{
    if formats.len() == 0 {
        None
    } else if is_preferred_format(formats.first()) {
        Some(formats.first())
    } else {
        spec_first_preferred(formats.drop_first())
    }
}

/// Format policy: the first preferred format when one exists, otherwise the
/// first supported format.
pub open spec fn spec_choose_format(formats: Seq<SurfaceFormat>) -> SurfaceFormat
    recommends
        formats.len() > 0,
{
    match spec_first_preferred(formats) {
        Option::Some(f) => f,
        Option::None => formats[0],
    }
}

/// Present mode policy: mailbox when supported, else the always-available
/// FIFO mode.
pub open spec fn spec_choose_present_mode(modes: Seq<u32>) -> u32 {
    if modes.contains(PRESENT_MODE_MAILBOX) {
        PRESENT_MODE_MAILBOX
    } else {
        PRESENT_MODE_FIFO
    }
}

/// `x` clamped into `[lo, hi]` (`lo` wins when the range is empty).
pub open spec fn spec_clamp(x: u32, lo: u32, hi: u32) -> u32 {
    if x < lo {
        lo
    } else if x > hi {
        hi
    } else {
        x
    }
}

/// Whether the surface reports the "extent follows the window" sentinel.
pub open spec fn extent_is_sentinel(e: Extent2D) -> bool {
    e.width == EXTENT_SENTINEL && e.height == EXTENT_SENTINEL
}

/// Extent policy: with the sentinel, the window framebuffer size clamped
/// componentwise into the surface's supported range; otherwise the
/// surface's fixed current extent verbatim.
pub open spec fn spec_choose_extent(caps: SurfaceCapabilities, window: Extent2D) -> Extent2D {
    if extent_is_sentinel(caps.current_extent) {
        Extent2D {
            width: spec_clamp(window.width, caps.min_extent.width, caps.max_extent.width),
            height: spec_clamp(window.height, caps.min_extent.height, caps.max_extent.height),
        }
    } else {
        caps.current_extent
    }
}

/// Image count policy: one more than the minimum, so that acquiring never
/// has to wait for the driver, capped at the maximum when the surface
/// reports one (zero meaning unbounded).
pub open spec fn spec_choose_image_count(caps: SurfaceCapabilities) -> int {
    if caps.max_image_count != 0 && caps.min_image_count + 1 > caps.max_image_count {
        caps.max_image_count as int
    } else {
        caps.min_image_count + 1
    }
}

/// Chooses the surface format, preferring an 8-bit SRGB format with SRGB
/// color space and falling back to the first supported format.
pub fn choose_format(formats: &Vec<SurfaceFormat>) -> (r: SurfaceFormat)
    requires
        formats@.len() > 0,
    ensures
        r == spec_choose_format(formats@),
{
    let n = formats.len();
    let mut i: usize = 0;
    proof {
        assert(formats@.skip(0) =~= formats@);
    }
    while i < n
        invariant
            i <= n,
            n == formats@.len(),
            spec_first_preferred(formats@) == spec_first_preferred(formats@.skip(i as int)),
        decreases n - i,
    {
        let f = formats[i];
        proof {
            assert(formats@.skip(i as int).first() == formats@[i as int]);
            assert(formats@.skip(i as int).drop_first() =~= formats@.skip(i as int + 1));
        }
        if f.format == FORMAT_B8G8R8A8_SRGB && f.color_space == COLOR_SPACE_SRGB_NONLINEAR {
            return f;
        }
        i = i + 1;
    }
    proof {
        assert(formats@.skip(n as int).len() == 0);
    }
    formats[0]
}

/// Chooses the present mode: mailbox when the surface supports it, FIFO
/// otherwise. Total: it never fails, whatever the mode list holds.
pub fn choose_present_mode(modes: &Vec<u32>) -> (r: u32)
    ensures
        r == spec_choose_present_mode(modes@),
{
    let mut i: usize = 0;
    while i < modes.len()
        invariant
            i <= modes@.len(),
            forall|j: int| 0 <= j < i ==> modes@[j] != PRESENT_MODE_MAILBOX,
        decreases modes@.len() - i,
    {
        if modes[i] == PRESENT_MODE_MAILBOX {
            return PRESENT_MODE_MAILBOX;
        }
        i = i + 1;
    }
    PRESENT_MODE_FIFO
}

/// Clamps `x` into `[lo, hi]`, `lo` taking precedence.
pub fn clamp_u32(x: u32, lo: u32, hi: u32) -> (r: u32)
    ensures
        r == spec_clamp(x, lo, hi),
{
    if x < lo {
        lo
    } else if x > hi {
        hi
    } else {
        x
    }
}

/// Resolves the swapchain extent: the window framebuffer size clamped into
/// the surface's range when the surface reports the sentinel, the surface's
/// fixed extent otherwise.
pub fn choose_extent(caps: &SurfaceCapabilities, window: Extent2D) -> (r: Extent2D)
    ensures
        r == spec_choose_extent(*caps, window),
{
    if caps.current_extent.width == EXTENT_SENTINEL && caps.current_extent.height == EXTENT_SENTINEL {
        Extent2D {
            width: clamp_u32(window.width, caps.min_extent.width, caps.max_extent.width),
            height: clamp_u32(window.height, caps.min_extent.height, caps.max_extent.height),
        }
    } else {
        caps.current_extent
    }
}

/// Requests `min_image_count + 1` images, capped at the surface's maximum
/// when that maximum is nonzero.
pub fn choose_image_count(caps: &SurfaceCapabilities) -> (r: u32)
    requires
        caps.min_image_count < u32::MAX,
    ensures
        r == spec_choose_image_count(*caps),
{
    let desired = caps.min_image_count + 1;
    if caps.max_image_count != 0 && desired > caps.max_image_count {
        caps.max_image_count
    } else {
        desired
    }
}

/// Format preference is total and deterministic: when any supported format
/// is preferred, the chosen format is preferred (the first such entry);
/// when none is, the chosen format is the first supported one; and the
/// choice is always drawn from the supported list.
pub proof fn lemma_format_preference(formats: Seq<SurfaceFormat>)
    requires
        formats.len() > 0,
    ensures
        (exists|i: int| 0 <= i < formats.len() && is_preferred_format(formats[i]))
            ==> is_preferred_format(spec_choose_format(formats)),
        (forall|i: int| 0 <= i < formats.len() ==> !is_preferred_format(formats[i]))
            ==> spec_choose_format(formats) == formats[0],
        formats.contains(spec_choose_format(formats)),
{
    lemma_first_preferred_character(formats);
    if spec_first_preferred(formats) is None {
        assert(formats.contains(formats[0]));
    }
}

/// What the first-preferred scan reports: a hit is a preferred entry of the
/// list, and a miss means no entry is preferred.
proof fn lemma_first_preferred_character(formats: Seq<SurfaceFormat>)
    ensures
        spec_first_preferred(formats) matches Some(f) ==> is_preferred_format(f)
            && formats.contains(f),
        spec_first_preferred(formats) is None ==> forall|i: int|
            0 <= i < formats.len() ==> !is_preferred_format(formats[i]),
    decreases formats.len(),
{
    if formats.len() == 0 {
    } else if is_preferred_format(formats.first()) {
        assert(formats.contains(formats[0]));
    } else {
        let rest = formats.drop_first();
        lemma_first_preferred_character(rest);
        match spec_first_preferred(rest) {
            Option::Some(f) => {
                let k = choose|k: int| 0 <= k < rest.len() && rest[k] == f;
                assert(formats[k + 1] == rest[k]);
                assert(formats.contains(f));
            },
            Option::None => {
                assert forall|i: int|
                    0 <= i < formats.len() implies !is_preferred_format(formats[i]) by {
                    if i > 0 {
                        assert(rest[i - 1] == formats[i]);
                    }
                }
            },
        }
    }
}

/// Present-mode negotiation can never fail: whatever the surface offers,
/// the choice is either the supported mailbox mode or the FIFO mode that
/// every conformant implementation provides, and mailbox is chosen exactly
/// when it is offered.
pub proof fn lemma_present_mode_total(modes: Seq<u32>)
    ensures
        spec_choose_present_mode(modes) == PRESENT_MODE_MAILBOX
            || spec_choose_present_mode(modes) == PRESENT_MODE_FIFO,
        spec_choose_present_mode(modes) == PRESENT_MODE_MAILBOX <==> modes.contains(
            PRESENT_MODE_MAILBOX,
        ),
{
}

/// Under the sentinel, the resolved extent honours the surface's supported
/// range: whenever that range is non-empty componentwise, the chosen width
/// and height lie within it.
pub proof fn lemma_extent_within_bounds(caps: SurfaceCapabilities, window: Extent2D)
    requires
        extent_is_sentinel(caps.current_extent),
        caps.min_extent.width <= caps.max_extent.width,
        caps.min_extent.height <= caps.max_extent.height,
    ensures
        caps.min_extent.width <= spec_choose_extent(caps, window).width <= caps.max_extent.width,
        caps.min_extent.height <= spec_choose_extent(caps, window).height
            <= caps.max_extent.height,
{
}

/// The requested image count always exceeds the surface's minimum unless
/// the maximum forbids it, and never exceeds a nonzero maximum.
pub proof fn lemma_image_count_bounds(caps: SurfaceCapabilities)
    requires
        caps.max_image_count != 0 ==> caps.min_image_count <= caps.max_image_count,
    ensures
        spec_choose_image_count(caps) >= caps.min_image_count,
        caps.max_image_count != 0 ==> spec_choose_image_count(caps) <= caps.max_image_count,
        caps.max_image_count == 0 ==> spec_choose_image_count(caps) == caps.min_image_count + 1,
{
}

/// How the swapchain images are shared between the graphics and the present
/// queue family.
#[derive(Clone, Copy, Debug, PartialEq, Eq, Structural)]
pub enum SharingMode {
    /// One family owns the images outright (graphics and present coincide).
    Exclusive,
    /// The images are shared between two distinct families.
    Concurrent,
}

/// Everything the creation call needs, fully negotiated.
#[derive(Debug)]
pub struct SwapchainPlan {
    pub format: SurfaceFormat,
    pub present_mode: u32,
    pub extent: Extent2D,
    /// The requested image count; the driver may deliver more, and the
    /// count actually returned is authoritative afterwards.
    pub image_count: u32,
    pub sharing: SharingMode,
    /// The distinct queue family indices sharing the images: empty under
    /// exclusive sharing, `[graphics, present]` under concurrent sharing.
    pub queue_family_indices: Vec<u32>,
    pub image_array_layers: u32,
}

/// Negotiates the whole swapchain plan from the queried surface data, the
/// window framebuffer size and the two selected queue family indices.
pub fn plan_swapchain(
    caps: &SurfaceCapabilities,
    formats: &Vec<SurfaceFormat>,
    modes: &Vec<u32>,
    window: Extent2D,
    graphics_family: u32,
    present_family: u32,
) -> (r: SwapchainPlan)
    requires
        formats@.len() > 0,
        caps.min_image_count < u32::MAX,
    ensures
        r.format == spec_choose_format(formats@),
        r.present_mode == spec_choose_present_mode(modes@),
        r.extent == spec_choose_extent(*caps, window),
        r.image_count == spec_choose_image_count(*caps),
        graphics_family == present_family ==> r.sharing == SharingMode::Exclusive
            && r.queue_family_indices@ =~= Seq::<u32>::empty(),
        graphics_family != present_family ==> r.sharing == SharingMode::Concurrent
            && r.queue_family_indices@ =~= seq![graphics_family, present_family],
        r.image_array_layers == 1,
{
    let format = choose_format(formats);
    let present_mode = choose_present_mode(modes);
    let extent = choose_extent(caps, window);
    let image_count = choose_image_count(caps);
    let mut queue_family_indices: Vec<u32> = Vec::new();
    let sharing: SharingMode;
    if graphics_family == present_family {
        sharing = SharingMode::Exclusive;
    } else {
        sharing = SharingMode::Concurrent;
        queue_family_indices.push(graphics_family);
        queue_family_indices.push(present_family);
    }
    SwapchainPlan {
        format,
        present_mode,
        extent,
        image_count,
        sharing,
        queue_family_indices,
        image_array_layers: 1,
    }
}

} // verus!
