//! The numbers by which the engine's C interface names its options.
//!
//! Each constant has to agree with the C enumerator of the same name in the
//! header that the engine is built from: nothing in this crate can check
//! that, so hold them against the header when the engine is updated.
//! Several output formats share a number: the DirectX 10 names are aliases
//! of the DirectX 9 ones, and `RGBA` is an alias of `RGB`.
use vstd::prelude::*;

verus! {

/// The version of the engine's interface that these codes are meant for.
pub const NVTT_VERSION: u32 = 20102;

pub const NVTT_CONTAINER_DDS: u32 = 0;
pub const NVTT_CONTAINER_DDS10: u32 = 1;
pub const NVTT_CONTAINER_KTX: u32 = 2;

pub const NVTT_ALPHA_MODE_NONE: u32 = 0;
pub const NVTT_ALPHA_MODE_TRANSPARENCY: u32 = 1;
pub const NVTT_ALPHA_MODE_PREMULTIPLIED: u32 = 2;

pub const NVTT_MIPMAP_FILTER_BOX: u32 = 0;
pub const NVTT_MIPMAP_FILTER_TRIANGLE: u32 = 1;
pub const NVTT_MIPMAP_FILTER_KAISER: u32 = 2;

pub const NVTT_QUALITY_FASTEST: u32 = 0;
pub const NVTT_QUALITY_NORMAL: u32 = 1;
pub const NVTT_QUALITY_PRODUCTION: u32 = 2;
pub const NVTT_QUALITY_HIGHEST: u32 = 3;

pub const NVTT_INPUT_FORMAT_BGRA_8UB: u32 = 0;
pub const NVTT_INPUT_FORMAT_RGBA_16F: u32 = 1;
pub const NVTT_INPUT_FORMAT_RGBA_32F: u32 = 2;
pub const NVTT_INPUT_FORMAT_R_32F: u32 = 3;

pub const NVTT_ROUND_MODE_NONE: u32 = 0;
pub const NVTT_ROUND_MODE_TO_NEXT_POWER_OF_TWO: u32 = 1;
pub const NVTT_ROUND_MODE_TO_NEAREST_POWER_OF_TWO: u32 = 2;
pub const NVTT_ROUND_MODE_TO_PREVIOUS_POWER_OF_TWO: u32 = 3;
pub const NVTT_ROUND_MODE_TO_NEXT_MULTIPLE_OF_FOUR: u32 = 4;
pub const NVTT_ROUND_MODE_TO_NEAREST_MULTIPLE_OF_FOUR: u32 = 5;
pub const NVTT_ROUND_MODE_TO_PREVIOUS_MULTIPLE_OF_FOUR: u32 = 6;

pub const NVTT_TEXTURE_TYPE_2D: u32 = 0;
pub const NVTT_TEXTURE_TYPE_CUBE: u32 = 1;
pub const NVTT_TEXTURE_TYPE_3D: u32 = 2;
pub const NVTT_TEXTURE_TYPE_ARRAY: u32 = 3;

pub const NVTT_WRAP_MODE_CLAMP: u32 = 0;
pub const NVTT_WRAP_MODE_REPEAT: u32 = 1;
pub const NVTT_WRAP_MODE_MIRROR: u32 = 2;

pub const NVTT_ERROR_UNKNOWN: u32 = 0;
pub const NVTT_ERROR_INVALID_INPUT: u32 = 1;
pub const NVTT_ERROR_UNSUPPORTED_FEATURE: u32 = 2;
pub const NVTT_ERROR_CUDA_ERROR: u32 = 3;
pub const NVTT_ERROR_FILE_OPEN: u32 = 4;
pub const NVTT_ERROR_FILE_WRITE: u32 = 5;
pub const NVTT_ERROR_UNSUPPORTED_OUTPUT_FORMAT: u32 = 6;

pub const NVTT_FORMAT_RGB: u32 = 0;
pub const NVTT_FORMAT_RGBA: u32 = 0;
pub const NVTT_FORMAT_DXT1: u32 = 1;
pub const NVTT_FORMAT_DXT1A: u32 = 2;
pub const NVTT_FORMAT_DXT3: u32 = 3;
pub const NVTT_FORMAT_DXT5: u32 = 4;
pub const NVTT_FORMAT_DXT5N: u32 = 5;
pub const NVTT_FORMAT_BC1: u32 = 1;
pub const NVTT_FORMAT_BC1A: u32 = 2;
pub const NVTT_FORMAT_BC2: u32 = 3;
pub const NVTT_FORMAT_BC3: u32 = 4;
pub const NVTT_FORMAT_BC3N: u32 = 5;
pub const NVTT_FORMAT_BC4: u32 = 6;
pub const NVTT_FORMAT_BC5: u32 = 7;
pub const NVTT_FORMAT_DXT1N: u32 = 8;
pub const NVTT_FORMAT_CTX1: u32 = 9;
pub const NVTT_FORMAT_BC6: u32 = 10;
pub const NVTT_FORMAT_BC7: u32 = 11;
pub const NVTT_FORMAT_BC3_RGBM: u32 = 12;
pub const NVTT_FORMAT_ETC1: u32 = 13;
pub const NVTT_FORMAT_ETC2_R: u32 = 14;
pub const NVTT_FORMAT_ETC2_RG: u32 = 15;
pub const NVTT_FORMAT_ETC2_RGB: u32 = 16;
pub const NVTT_FORMAT_ETC2_RGBA: u32 = 17;
pub const NVTT_FORMAT_ETC2_RGB_A1: u32 = 18;
pub const NVTT_FORMAT_ETC2_RGBM: u32 = 19;
pub const NVTT_FORMAT_PVR_2BPP_RGB: u32 = 20;
pub const NVTT_FORMAT_PVR_4BPP_RGB: u32 = 21;
pub const NVTT_FORMAT_PVR_2BPP_RGBA: u32 = 22;
pub const NVTT_FORMAT_PVR_4BPP_RGBA: u32 = 23;

/// The version of the engine's interface that this crate speaks.
pub fn version() -> (v: u32)
    ensures
        v == NVTT_VERSION,
{
    NVTT_VERSION
}

} // verus!
