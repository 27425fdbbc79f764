//! The Vulkan API versions the renderer asks for.

use vstd::prelude::*;

verus! {

/// The packed Vulkan API version with the given parts: `variant` shifted to
/// bit 29, `major` to bit 22, `minor` to bit 12, and `patch` in the low bits.
pub open spec fn api_version_spec(variant: u32, major: u32, minor: u32, patch: u32) -> u32 {
    (variant << 29u32) | (major << 22u32) | (minor << 12u32) | patch
}

/// Packing loses nothing when every part fits its field (variant below 8,
/// major below 128, minor below 1024, patch below 4096): the parts read back
/// from the packed version the way Vulkan's `VK_API_VERSION_*` macros do
/// are the parts that went in.
pub proof fn lemma_api_version_unpacks(variant: u32, major: u32, minor: u32, patch: u32)
    requires
        variant < 8,
        major < 128,
        minor < 1024,
        patch < 4096,
    ensures
        api_version_spec(variant, major, minor, patch) >> 29u32 == variant,
        (api_version_spec(variant, major, minor, patch) >> 22u32) & 0x7fu32 == major,
        (api_version_spec(variant, major, minor, patch) >> 12u32) & 0x3ffu32 == minor,
        api_version_spec(variant, major, minor, patch) & 0xfffu32 == patch,
{
    let v = api_version_spec(variant, major, minor, patch);
    assert(v == (variant << 29u32) | (major << 22u32) | (minor << 12u32) | patch);
    assert(
        ((variant << 29u32) | (major << 22u32) | (minor << 12u32) | patch) >> 29u32 == variant
        && (((variant << 29u32) | (major << 22u32) | (minor << 12u32) | patch) >> 22u32) & 0x7fu32 == major
        && (((variant << 29u32) | (major << 22u32) | (minor << 12u32) | patch) >> 12u32) & 0x3ffu32 == minor
        && ((variant << 29u32) | (major << 22u32) | (minor << 12u32) | patch) & 0xfffu32 == patch
    ) by (bit_vector)
        requires
            variant < 8,
            major < 128,
            minor < 1024,
            patch < 4096,
    ;
}

/// Calls `ash::vk::make_api_version`, whose body (in the version of ash this
/// crate builds with) is exactly `api_version_spec`: the four parts shifted
/// into place and or-ed together.
#[verifier::external_body]
fn make_api_version(variant: u32, major: u32, minor: u32, patch: u32) -> (r: u32)
    ensures
        r == api_version_spec(variant, major, minor, patch),
{
    ash::vk::make_api_version(variant, major, minor, patch)
}

/// The Vulkan API version the renderer creates its instance for: 1.4.
pub fn instance_api_version() -> (r: u32)
    ensures
        r == api_version_spec(0, 1, 4, 0),
{
    make_api_version(0, 1, 4, 0)
}

/// The Vulkan API version the memory allocator is told the device supports: 1.3.
pub fn allocator_api_version() -> (r: u32)
    ensures
        r == api_version_spec(0, 1, 3, 0),
{
    make_api_version(0, 1, 3, 0)
}

} // verus!
