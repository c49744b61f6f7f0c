//! The output formats, several of which the engine knows under two names.
use vstd::prelude::*;
use crate::native::{
    NVTT_FORMAT_BC1,
    NVTT_FORMAT_BC1A,
    NVTT_FORMAT_BC2,
    NVTT_FORMAT_BC3,
    NVTT_FORMAT_BC3N,
    NVTT_FORMAT_BC3_RGBM,
    NVTT_FORMAT_BC4,
    NVTT_FORMAT_BC5,
    NVTT_FORMAT_BC6,
    NVTT_FORMAT_BC7,
    NVTT_FORMAT_CTX1,
    NVTT_FORMAT_DXT1,
    NVTT_FORMAT_DXT1A,
    NVTT_FORMAT_DXT1N,
    NVTT_FORMAT_DXT3,
    NVTT_FORMAT_DXT5,
    NVTT_FORMAT_DXT5N,
    NVTT_FORMAT_ETC1,
    NVTT_FORMAT_ETC2_R,
    NVTT_FORMAT_ETC2_RG,
    NVTT_FORMAT_ETC2_RGB,
    NVTT_FORMAT_ETC2_RGBA,
    NVTT_FORMAT_ETC2_RGBM,
    NVTT_FORMAT_ETC2_RGB_A1,
    NVTT_FORMAT_PVR_2BPP_RGB,
    NVTT_FORMAT_PVR_2BPP_RGBA,
    NVTT_FORMAT_PVR_4BPP_RGB,
    NVTT_FORMAT_PVR_4BPP_RGBA,
    NVTT_FORMAT_RGB,
    NVTT_FORMAT_RGBA,
};

verus! {

/// The format that the texture is compressed into.
///
/// The engine gives one number to both names of a format that has two. Such
/// a number translates back to the name that is declared first here.
#[allow(non_camel_case_types)]
#[derive(Clone, Copy, Debug, PartialEq, Eq, Hash, Structural)]
pub enum Format {
    Bc1,
    Bc1a,
    Bc2,
    Bc3,
    Bc3n,
    Bc3_Rgbm,
    Bc4,
    Bc5,
    Bc6,
    Bc7,
    Ctx1,
    /// The DirectX 9 name of [`Format::Bc1`].
    Dxt1,
    /// The DirectX 9 name of [`Format::Bc1a`].
    Dxt1a,
    Dxt1n,
    /// The DirectX 9 name of [`Format::Bc2`].
    Dxt3,
    /// The DirectX 9 name of [`Format::Bc3`].
    Dxt5,
    /// The DirectX 9 name of [`Format::Bc3n`].
    Dxt5n,
    Etc1,
    Etc2_R,
    Etc2_Rg,
    Etc2_Rgb,
    Etc2_Rgba,
    Etc2_Rgbm,
    Etc2_Rgb_A1,
    Pvr_2Bpp_Rgb,
    Pvr_2Bpp_Rgba,
    Pvr_4Bpp_Rgb,
    Pvr_4Bpp_Rgba,
    /// Uncompressed.
    Rgb,
    /// Uncompressed; another name of [`Format::Rgb`].
    Rgba,
}

impl Format {
    /// The engine's number for `self`.
    pub open spec fn native(self) -> u32 {
        match self {
            Format::Bc1 => NVTT_FORMAT_BC1,
            Format::Bc1a => NVTT_FORMAT_BC1A,
            Format::Bc2 => NVTT_FORMAT_BC2,
            Format::Bc3 => NVTT_FORMAT_BC3,
            Format::Bc3n => NVTT_FORMAT_BC3N,
            Format::Bc3_Rgbm => NVTT_FORMAT_BC3_RGBM,
            Format::Bc4 => NVTT_FORMAT_BC4,
            Format::Bc5 => NVTT_FORMAT_BC5,
            Format::Bc6 => NVTT_FORMAT_BC6,
            Format::Bc7 => NVTT_FORMAT_BC7,
            Format::Ctx1 => NVTT_FORMAT_CTX1,
            Format::Dxt1 => NVTT_FORMAT_DXT1,
            Format::Dxt1a => NVTT_FORMAT_DXT1A,
            Format::Dxt1n => NVTT_FORMAT_DXT1N,
            Format::Dxt3 => NVTT_FORMAT_DXT3,
            Format::Dxt5 => NVTT_FORMAT_DXT5,
            Format::Dxt5n => NVTT_FORMAT_DXT5N,
            Format::Etc1 => NVTT_FORMAT_ETC1,
            Format::Etc2_R => NVTT_FORMAT_ETC2_R,
            Format::Etc2_Rg => NVTT_FORMAT_ETC2_RG,
            Format::Etc2_Rgb => NVTT_FORMAT_ETC2_RGB,
            Format::Etc2_Rgba => NVTT_FORMAT_ETC2_RGBA,
            Format::Etc2_Rgbm => NVTT_FORMAT_ETC2_RGBM,
            Format::Etc2_Rgb_A1 => NVTT_FORMAT_ETC2_RGB_A1,
            Format::Pvr_2Bpp_Rgb => NVTT_FORMAT_PVR_2BPP_RGB,
            Format::Pvr_2Bpp_Rgba => NVTT_FORMAT_PVR_2BPP_RGBA,
            Format::Pvr_4Bpp_Rgb => NVTT_FORMAT_PVR_4BPP_RGB,
            Format::Pvr_4Bpp_Rgba => NVTT_FORMAT_PVR_4BPP_RGBA,
            Format::Rgb => NVTT_FORMAT_RGB,
            Format::Rgba => NVTT_FORMAT_RGBA,
        }
    }

    /// The place of `self` in the declaration of [`Format`], counted from 0.
    pub open spec fn ordinal(self) -> nat {
        match self {
            Format::Bc1 => 0,
            Format::Bc1a => 1,
            Format::Bc2 => 2,
            Format::Bc3 => 3,
            Format::Bc3n => 4,
            Format::Bc3_Rgbm => 5,
            Format::Bc4 => 6,
            Format::Bc5 => 7,
            Format::Bc6 => 8,
            Format::Bc7 => 9,
            Format::Ctx1 => 10,
            Format::Dxt1 => 11,
            Format::Dxt1a => 12,
            Format::Dxt1n => 13,
            Format::Dxt3 => 14,
            Format::Dxt5 => 15,
            Format::Dxt5n => 16,
            Format::Etc1 => 17,
            Format::Etc2_R => 18,
            Format::Etc2_Rg => 19,
            Format::Etc2_Rgb => 20,
            Format::Etc2_Rgba => 21,
            Format::Etc2_Rgbm => 22,
            Format::Etc2_Rgb_A1 => 23,
            Format::Pvr_2Bpp_Rgb => 24,
            Format::Pvr_2Bpp_Rgba => 25,
            Format::Pvr_4Bpp_Rgb => 26,
            Format::Pvr_4Bpp_Rgba => 27,
            Format::Rgb => 28,
            Format::Rgba => 29,
        }
    }

    /// The name that stands for `self` after a trip through the engine: the
    /// first declared format with the same number.
    pub open spec fn canonical(self) -> Format {
        match self {
            Format::Dxt1 => Format::Bc1,
            Format::Dxt1a => Format::Bc1a,
            Format::Dxt3 => Format::Bc2,
            Format::Dxt5 => Format::Bc3,
            Format::Dxt5n => Format::Bc3n,
            Format::Rgba => Format::Rgb,
            other => other,
        }
    }

    /// The format that the engine's number `raw` names, if it names one:
    /// of two names for one number, the first declared.
    pub open spec fn of_native(raw: u32) -> Option<Format> {
        if raw == NVTT_FORMAT_BC1 {
            Some(Format::Bc1)
        } else if raw == NVTT_FORMAT_BC1A {
            Some(Format::Bc1a)
        } else if raw == NVTT_FORMAT_BC2 {
            Some(Format::Bc2)
        } else if raw == NVTT_FORMAT_BC3 {
            Some(Format::Bc3)
        } else if raw == NVTT_FORMAT_BC3N {
            Some(Format::Bc3n)
        } else if raw == NVTT_FORMAT_BC3_RGBM {
            Some(Format::Bc3_Rgbm)
        } else if raw == NVTT_FORMAT_BC4 {
            Some(Format::Bc4)
        } else if raw == NVTT_FORMAT_BC5 {
            Some(Format::Bc5)
        } else if raw == NVTT_FORMAT_BC6 {
            Some(Format::Bc6)
        } else if raw == NVTT_FORMAT_BC7 {
            Some(Format::Bc7)
        } else if raw == NVTT_FORMAT_CTX1 {
            Some(Format::Ctx1)
        } else if raw == NVTT_FORMAT_DXT1N {
            Some(Format::Dxt1n)
        } else if raw == NVTT_FORMAT_ETC1 {
            Some(Format::Etc1)
        } else if raw == NVTT_FORMAT_ETC2_R {
            Some(Format::Etc2_R)
        } else if raw == NVTT_FORMAT_ETC2_RG {
            Some(Format::Etc2_Rg)
        } else if raw == NVTT_FORMAT_ETC2_RGB {
            Some(Format::Etc2_Rgb)
        } else if raw == NVTT_FORMAT_ETC2_RGBA {
            Some(Format::Etc2_Rgba)
        } else if raw == NVTT_FORMAT_ETC2_RGBM {
            Some(Format::Etc2_Rgbm)
        } else if raw == NVTT_FORMAT_ETC2_RGB_A1 {
            Some(Format::Etc2_Rgb_A1)
        } else if raw == NVTT_FORMAT_PVR_2BPP_RGB {
            Some(Format::Pvr_2Bpp_Rgb)
        } else if raw == NVTT_FORMAT_PVR_2BPP_RGBA {
            Some(Format::Pvr_2Bpp_Rgba)
        } else if raw == NVTT_FORMAT_PVR_4BPP_RGB {
            Some(Format::Pvr_4Bpp_Rgb)
        } else if raw == NVTT_FORMAT_PVR_4BPP_RGBA {
            Some(Format::Pvr_4Bpp_Rgba)
        } else if raw == NVTT_FORMAT_RGB {
            Some(Format::Rgb)
        } else {
            None
        }
    }

    /// Translates `self` into the engine's number for it.
    pub fn to_native(self) -> (raw: u32)
        ensures
            raw == self.native(),
    {
        match self {
            Format::Bc1 => NVTT_FORMAT_BC1,
            Format::Bc1a => NVTT_FORMAT_BC1A,
            Format::Bc2 => NVTT_FORMAT_BC2,
            Format::Bc3 => NVTT_FORMAT_BC3,
            Format::Bc3n => NVTT_FORMAT_BC3N,
            Format::Bc3_Rgbm => NVTT_FORMAT_BC3_RGBM,
            Format::Bc4 => NVTT_FORMAT_BC4,
            Format::Bc5 => NVTT_FORMAT_BC5,
            Format::Bc6 => NVTT_FORMAT_BC6,
            Format::Bc7 => NVTT_FORMAT_BC7,
            Format::Ctx1 => NVTT_FORMAT_CTX1,
            Format::Dxt1 => NVTT_FORMAT_DXT1,
            Format::Dxt1a => NVTT_FORMAT_DXT1A,
            Format::Dxt1n => NVTT_FORMAT_DXT1N,
            Format::Dxt3 => NVTT_FORMAT_DXT3,
            Format::Dxt5 => NVTT_FORMAT_DXT5,
            Format::Dxt5n => NVTT_FORMAT_DXT5N,
            Format::Etc1 => NVTT_FORMAT_ETC1,
            Format::Etc2_R => NVTT_FORMAT_ETC2_R,
            Format::Etc2_Rg => NVTT_FORMAT_ETC2_RG,
            Format::Etc2_Rgb => NVTT_FORMAT_ETC2_RGB,
            Format::Etc2_Rgba => NVTT_FORMAT_ETC2_RGBA,
            Format::Etc2_Rgbm => NVTT_FORMAT_ETC2_RGBM,
            Format::Etc2_Rgb_A1 => NVTT_FORMAT_ETC2_RGB_A1,
            Format::Pvr_2Bpp_Rgb => NVTT_FORMAT_PVR_2BPP_RGB,
            Format::Pvr_2Bpp_Rgba => NVTT_FORMAT_PVR_2BPP_RGBA,
            Format::Pvr_4Bpp_Rgb => NVTT_FORMAT_PVR_4BPP_RGB,
            Format::Pvr_4Bpp_Rgba => NVTT_FORMAT_PVR_4BPP_RGBA,
            Format::Rgb => NVTT_FORMAT_RGB,
            Format::Rgba => NVTT_FORMAT_RGBA,
        }
    }

    /// Translates the engine's number `raw` back. A number that names no
    /// format gives `None`; a number with two names gives the first declared.
    pub fn from_native(raw: u32) -> (r: Option<Format>)
        ensures
            r == Format::of_native(raw),
            r matches Some(v) ==> v.native() == raw && forall|w: Format|
                w.native() == raw ==> v.ordinal() <= w.ordinal(),
            r is None ==> forall|v: Format| v.native() != raw,
    {
        if raw == NVTT_FORMAT_BC1 {
            Some(Format::Bc1)
        } else if raw == NVTT_FORMAT_BC1A {
            Some(Format::Bc1a)
        } else if raw == NVTT_FORMAT_BC2 {
            Some(Format::Bc2)
        } else if raw == NVTT_FORMAT_BC3 {
            Some(Format::Bc3)
        } else if raw == NVTT_FORMAT_BC3N {
            Some(Format::Bc3n)
        } else if raw == NVTT_FORMAT_BC3_RGBM {
            Some(Format::Bc3_Rgbm)
        } else if raw == NVTT_FORMAT_BC4 {
            Some(Format::Bc4)
        } else if raw == NVTT_FORMAT_BC5 {
            Some(Format::Bc5)
        } else if raw == NVTT_FORMAT_BC6 {
            Some(Format::Bc6)
        } else if raw == NVTT_FORMAT_BC7 {
            Some(Format::Bc7)
        } else if raw == NVTT_FORMAT_CTX1 {
            Some(Format::Ctx1)
        } else if raw == NVTT_FORMAT_DXT1N {
            Some(Format::Dxt1n)
        } else if raw == NVTT_FORMAT_ETC1 {
            Some(Format::Etc1)
        } else if raw == NVTT_FORMAT_ETC2_R {
            Some(Format::Etc2_R)
        } else if raw == NVTT_FORMAT_ETC2_RG {
            Some(Format::Etc2_Rg)
        } else if raw == NVTT_FORMAT_ETC2_RGB {
            Some(Format::Etc2_Rgb)
        } else if raw == NVTT_FORMAT_ETC2_RGBA {
            Some(Format::Etc2_Rgba)
        } else if raw == NVTT_FORMAT_ETC2_RGBM {
            Some(Format::Etc2_Rgbm)
        } else if raw == NVTT_FORMAT_ETC2_RGB_A1 {
            Some(Format::Etc2_Rgb_A1)
        } else if raw == NVTT_FORMAT_PVR_2BPP_RGB {
            Some(Format::Pvr_2Bpp_Rgb)
        } else if raw == NVTT_FORMAT_PVR_2BPP_RGBA {
            Some(Format::Pvr_2Bpp_Rgba)
        } else if raw == NVTT_FORMAT_PVR_4BPP_RGB {
            Some(Format::Pvr_4Bpp_Rgb)
        } else if raw == NVTT_FORMAT_PVR_4BPP_RGBA {
            Some(Format::Pvr_4Bpp_Rgba)
        } else if raw == NVTT_FORMAT_RGB {
            Some(Format::Rgb)
        } else {
            None
        }
    }

    /// Whether `raw` is the engine's number for `self`.
    pub fn eq_native(self, raw: u32) -> (r: bool)
        ensures
            r == (self.native() == raw),
    {
        self.to_native() == raw
    }

    /// The number of a format survives the trip through this type: the
    /// number translates back to a format, and that format has the same
    /// number.
    pub proof fn lemma_round_trip(self)
        ensures
            Format::of_native(self.native()) == Some(self.canonical()),
            self.canonical().native() == self.native(),
    {
    }

    /// Of the formats that share a number, the one that the number
    /// translates back to is declared before all the others.
    pub proof fn lemma_first_declared_wins(self, other: Format)
        requires
            self.native() == other.native(),
        ensures
            self.canonical().ordinal() <= other.ordinal(),
            self.canonical() == other.canonical(),
    {
    }

    /// A format with a name of its own comes back unchanged.
    pub proof fn lemma_canonical_is_fixed(self)
        ensures
            self.canonical().canonical() == self.canonical(),
            self.canonical() == self <==> Format::of_native(self.native()) == Some(self),
    {
    }
}

} // verus!
