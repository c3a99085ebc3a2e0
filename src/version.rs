use vstd::prelude::*;

verus! {

/// The packed form of a version number: `major` in bits 22 and up, `minor` in
/// bits 12 to 21 and `patch` in bits 0 to 11, as 32-bit shifts and or.
pub open spec fn packed_version(major: u32, minor: u32, patch: u32) -> u32 {
    ((major << 22u32) | (minor << 12u32)) | patch
}

/// The packed form of an API version: `variant` in bits 29 to 31, the rest as
/// in `packed_version`.
pub open spec fn packed_api_version(variant: u32, major: u32, minor: u32, patch: u32) -> u32 {
    (((variant << 29u32) | (major << 22u32)) | (minor << 12u32)) | patch
}

/// Packs a version number into the 32-bit form the graphics API uses.
/// Where each part fits its field the result is the sum of the shifted parts.
#[allow(non_snake_case)]
pub fn VK_MAKE_VERSION(major: u32, minor: u32, patch: u32) -> (r: u32)
    ensures
        r == packed_version(major, minor, patch),
        major < 0x400 && minor < 0x400 && patch < 0x1000 ==> r == major * 0x400000 + minor
            * 0x1000 + patch,
{
    let r = (major << 22) | (minor << 12) | patch;
    proof {
        if major < 0x400 && minor < 0x400 && patch < 0x1000 {
            assert(((major << 22u32) | (minor << 12u32)) | patch == major * 0x400000 + minor
                * 0x1000 + patch) by (bit_vector)
                requires
                    major < 0x400 && minor < 0x400 && patch < 0x1000,
            ;
        }
    }
    r
}

/// Packs an API version, with its variant, into the 32-bit form the graphics
/// API uses. Where each part fits its field the result is the sum of the
/// shifted parts.
#[allow(non_snake_case)]
pub fn VK_MAKE_API_VERSION(variant: u32, major: u32, minor: u32, patch: u32) -> (r: u32)
    ensures
        r == packed_api_version(variant, major, minor, patch),
        variant < 8 && major < 0x80 && minor < 0x400 && patch < 0x1000 ==> r == variant
            * 0x20000000 + major * 0x400000 + minor * 0x1000 + patch,
{
    let r = (variant << 29) | (major << 22) | (minor << 12) | patch;
    proof {
        if variant < 8 && major < 0x80 && minor < 0x400 && patch < 0x1000 {
            assert((((variant << 29u32) | (major << 22u32)) | (minor << 12u32)) | patch == variant
                * 0x20000000 + major * 0x400000 + minor * 0x1000 + patch) by (bit_vector)
                requires
                    variant < 8 && major < 0x80 && minor < 0x400 && patch < 0x1000,
            ;
        }
    }
    r
}

} // verus!
