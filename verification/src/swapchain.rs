//! The settings a swapchain is created with.

use vstd::prelude::*;

verus! {

/// The Vulkan `VkFormat` value of `B8G8R8A8_SRGB`.
pub const FORMAT_B8G8R8A8_SRGB: i32 = 50;

/// The Vulkan `VkColorSpaceKHR` value of `SRGB_NONLINEAR`.
pub const COLOR_SPACE_SRGB_NONLINEAR: i32 = 0;

/// The Vulkan `VkPresentModeKHR` value of `MAILBOX`.
pub const PRESENT_MODE_MAILBOX: i32 = 1;

/// The Vulkan `VkPresentModeKHR` value of `FIFO`, which every surface supports.
pub const PRESENT_MODE_FIFO: i32 = 2;

/// The number of swapchain images the renderer asks for, when the surface allows it.
pub const PREFERRED_IMAGE_COUNT: u32 = 3;

/// Compares `ash::vk::Format::from_raw(format)` with
/// `ash::vk::Format::B8G8R8A8_SRGB`, which ash defines with the raw value 50
/// and compares by raw value.
#[verifier::external_body]
fn is_b8g8r8a8_srgb(format: i32) -> (r: bool)
    ensures
        r == (format == FORMAT_B8G8R8A8_SRGB),
{
    ash::vk::Format::from_raw(format) == ash::vk::Format::B8G8R8A8_SRGB
}

/// Compares `ash::vk::ColorSpaceKHR::from_raw(color_space)` with
/// `ash::vk::ColorSpaceKHR::SRGB_NONLINEAR`, which ash defines with the raw
/// value 0 and compares by raw value.
#[verifier::external_body]
fn is_srgb_nonlinear(color_space: i32) -> (r: bool)
    ensures
        r == (color_space == COLOR_SPACE_SRGB_NONLINEAR),
{
    ash::vk::ColorSpaceKHR::from_raw(color_space) == ash::vk::ColorSpaceKHR::SRGB_NONLINEAR
}

/// Compares `ash::vk::PresentModeKHR::from_raw(mode)` with
/// `ash::vk::PresentModeKHR::MAILBOX`, which ash defines with the raw value 1
/// and compares by raw value.
#[verifier::external_body]
fn is_mailbox(mode: i32) -> (r: bool)
    ensures
        r == (mode == PRESENT_MODE_MAILBOX),
{
    ash::vk::PresentModeKHR::from_raw(mode) == ash::vk::PresentModeKHR::MAILBOX
}

/// The raw value of `ash::vk::PresentModeKHR::FIFO`, which ash defines as 2.
#[verifier::external_body]
fn fifo_present_mode() -> (r: i32)
    ensures
        r == PRESENT_MODE_FIFO,
{
    ash::vk::PresentModeKHR::FIFO.as_raw()
}

/// A pixel format and color space pair that a surface supports.
#[derive(Debug, Clone, Copy, PartialEq, Eq)]
pub struct SurfaceFormat {
    pub format: i32,
    pub color_space: i32,
}

/// A two-dimensional size in pixels.
#[derive(Debug, Clone, Copy, PartialEq, Eq)]
pub struct Extent2D {
    pub width: u32,
    pub height: u32,
}

/// What the swapchain settings read of the surface capabilities.
#[derive(Debug, Clone, Copy, PartialEq, Eq)]
pub struct SurfaceCaps {
    pub min_image_count: u32,
    pub max_image_count: u32,
    pub current_extent: Extent2D,
}

/// The swapchain's image format, extent and present mode.
#[derive(Debug, Clone, Copy, PartialEq, Eq)]
pub struct SwapchainInfo {
    pub format: i32,
    pub extent: Extent2D,
    pub present_mode: i32,
}

/// Everything the renderer decides about a new swapchain.
#[derive(Debug, Clone, Copy, PartialEq, Eq)]
pub struct SwapchainSettings {
    pub surface_format: SurfaceFormat,
    pub present_mode: i32,
    pub min_image_count: u32,
    pub extent: Extent2D,
}

/// Why the swapchain could not be created (each with the Vulkan result code).
#[derive(Debug, Clone, Copy, PartialEq, Eq)]
pub enum SwapchainCreationError {
    SurfaceCapabilities(i32),
    SurfaceFormats(i32),
    SurfacePresentModes(i32),
    Creation(i32),
    ImageRetrieval(i32),
    ViewCreation(i32),
    SemaphoreCreation(i32),
}

/// The format the renderer prefers: 8-bit BGRA sRGB in the sRGB color space.
pub open spec fn is_preferred_format(f: SurfaceFormat) -> bool {
    f.format == FORMAT_B8G8R8A8_SRGB && f.color_space == COLOR_SPACE_SRGB_NONLINEAR
}

/// The first preferred format of `formats`, else its first format.
pub open spec fn surface_format_spec(formats: Seq<SurfaceFormat>) -> SurfaceFormat {
    if exists|i: int| 0 <= i < formats.len() && is_preferred_format(#[trigger] formats[i]) {
        let i = choose|i: int|
            0 <= i < formats.len() && is_preferred_format(#[trigger] formats[i]) && forall|j: int|
                0 <= j < i ==> !is_preferred_format(#[trigger] formats[j]);
        formats[i]
    } else {
        formats[0]
    }
}

/// The surface format chosen is the first one listed that is 8-bit BGRA
/// sRGB (`VkFormat` 50) in the sRGB non-linear color space
/// (`VkColorSpaceKHR` 0); when none is, it is the first format listed.
pub proof fn lemma_surface_format_first_preferred(formats: Seq<SurfaceFormat>)
    requires
        formats.len() > 0,
    ensures
        ({
            let r = surface_format_spec(formats);
            if exists|k: int|
                0 <= k < formats.len() && (#[trigger] formats[k]).format == 50 && formats[k].color_space == 0 {
                exists|i: int|
                    0 <= i < formats.len() && #[trigger] formats[i] == r && r.format == 50 && r.color_space == 0
                        && forall|j: int|
                        0 <= j < i ==> !((#[trigger] formats[j]).format == 50 && formats[j].color_space == 0)
            } else {
                r == formats[0]
            }
        }),
{
    if exists|k: int|
        0 <= k < formats.len() && (#[trigger] formats[k]).format == 50 && formats[k].color_space == 0 {
        let k = choose|k: int|
            0 <= k < formats.len() && (#[trigger] formats[k]).format == 50 && formats[k].color_space == 0;
        assert(is_preferred_format(formats[k]));
        lemma_first_preferred_exists(formats, k);
        let i = choose|i: int|
            0 <= i < formats.len() && is_preferred_format(#[trigger] formats[i]) && forall|j: int|
                0 <= j < i ==> !is_preferred_format(#[trigger] formats[j]);
        assert(surface_format_spec(formats) == formats[i]);
    } else {
        assert(!exists|i: int| 0 <= i < formats.len() && is_preferred_format(#[trigger] formats[i]));
    }
}

/// Where some format is preferred, there is a first such format.
proof fn lemma_first_preferred_exists(formats: Seq<SurfaceFormat>, k: int)
    requires
        0 <= k < formats.len(),
        is_preferred_format(formats[k]),
    ensures
        exists|i: int|
            0 <= i < formats.len() && is_preferred_format(#[trigger] formats[i]) && forall|j: int|
                0 <= j < i ==> !is_preferred_format(#[trigger] formats[j]),
    decreases k,
{
    if exists|j: int| 0 <= j < k && is_preferred_format(#[trigger] formats[j]) {
        let j = choose|j: int| 0 <= j < k && is_preferred_format(#[trigger] formats[j]);
        lemma_first_preferred_exists(formats, j);
    } else {
        assert(forall|j: int| 0 <= j < k ==> !is_preferred_format(#[trigger] formats[j]));
    }
}

/// Picks the surface format: the preferred one when the surface offers it,
/// else the first format the surface lists.
pub fn choose_surface_format(formats: &Vec<SurfaceFormat>) -> (r: SurfaceFormat)
    requires
        formats.len() > 0,
    ensures
        r == surface_format_spec(formats@),
        (exists|i: int| 0 <= i < formats.len() && is_preferred_format(#[trigger] formats@[i]))
            ==> is_preferred_format(r),
{
    let mut i: usize = 0;
    while i < formats.len()
        invariant
            i <= formats.len(),
            forall|j: int| 0 <= j < i ==> !is_preferred_format(#[trigger] formats@[j]),
        decreases formats.len() - i,
    {
        let f = formats[i];
        if is_b8g8r8a8_srgb(f.format) && is_srgb_nonlinear(f.color_space) {
            proof {
                let s = formats@;
                assert(is_preferred_format(s[i as int]));
                let k = choose|k: int|
                    0 <= k < s.len() && is_preferred_format(#[trigger] s[k]) && forall|j: int|
                        0 <= j < k ==> !is_preferred_format(#[trigger] s[j]);
                if k < i {
                    assert(!is_preferred_format(s[k]));
                }
                if k > i {
                    assert(!is_preferred_format(s[i as int]));
                }
            }
            return f;
        }
        i = i + 1;
    }
    formats[0]
}

/// Picks the present mode: mailbox when the surface supports it, else FIFO.
pub fn choose_present_mode(present_modes: &Vec<i32>) -> (r: i32)
    ensures
        r == (if present_modes@.contains(PRESENT_MODE_MAILBOX) {
            PRESENT_MODE_MAILBOX
        } else {
            PRESENT_MODE_FIFO
        }),
        r == (if present_modes@.contains(1i32) { 1i32 } else { 2i32 }),
{
    let mut i: usize = 0;
    while i < present_modes.len()
        invariant
            i <= present_modes.len(),
            forall|j: int| 0 <= j < i ==> present_modes@[j] != PRESENT_MODE_MAILBOX,
        decreases present_modes.len() - i,
    {
        if is_mailbox(present_modes[i]) {
            return present_modes[i];
        }
        i = i + 1;
    }
    fifo_present_mode()
}

/// Three, raised to `min_image_count`, then lowered to `max_image_count`.
pub open spec fn image_count_spec(min_image_count: u32, max_image_count: u32) -> u32 {
    let raised = if min_image_count > PREFERRED_IMAGE_COUNT {
        min_image_count
    } else {
        PREFERRED_IMAGE_COUNT
    };
    if raised < max_image_count {
        raised
    } else {
        max_image_count
    }
}

/// The number of images to ask for: three, raised to the surface's minimum,
/// then lowered to its maximum.
pub fn choose_image_count(min_image_count: u32, max_image_count: u32) -> (r: u32)
    ensures
        r == image_count_spec(min_image_count, max_image_count),
{
    let raised = if PREFERRED_IMAGE_COUNT > min_image_count {
        PREFERRED_IMAGE_COUNT
    } else {
        min_image_count
    };
    if raised < max_image_count {
        raised
    } else {
        max_image_count
    }
}

/// The image count is three clamped into the surface's range, the upper
/// bound taking precedence: it never exceeds `max_image_count`, never
/// exceeds the larger of three and `min_image_count`, and falls short of
/// that larger value only where `max_image_count` cuts it off. In
/// particular it is exactly three whenever the surface allows three.
pub proof fn lemma_image_count_clamps_three(min_image_count: u32, max_image_count: u32)
    ensures
        ({
            let r = image_count_spec(min_image_count, max_image_count);
            &&& r <= max_image_count
            &&& r <= 3 || r <= min_image_count
            &&& r == max_image_count || (r >= 3 && r >= min_image_count)
            &&& (min_image_count <= 3 <= max_image_count ==> r == 3)
            &&& (3 < min_image_count <= max_image_count ==> r == min_image_count)
        }),
{
}

/// The settings of a new swapchain for a surface with the given capabilities,
/// formats and present modes: the surface's current extent, and the format,
/// present mode and image count chosen as above.
pub fn choose_swapchain_settings(
    caps: &SurfaceCaps,
    formats: &Vec<SurfaceFormat>,
    present_modes: &Vec<i32>,
) -> (r: SwapchainSettings)
    requires
        formats.len() > 0,
    ensures
        r.surface_format == surface_format_spec(formats@),
        r.present_mode == (if present_modes@.contains(PRESENT_MODE_MAILBOX) {
            PRESENT_MODE_MAILBOX
        } else {
            PRESENT_MODE_FIFO
        }),
        r.min_image_count == image_count_spec(caps.min_image_count, caps.max_image_count),
        r.extent == caps.current_extent,
{
    SwapchainSettings {
        surface_format: choose_surface_format(formats),
        present_mode: choose_present_mode(present_modes),
        min_image_count: choose_image_count(caps.min_image_count, caps.max_image_count),
        extent: caps.current_extent,
    }
}

} // verus!
