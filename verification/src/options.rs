//! The enumerated options of the engine, each with its translation to and
//! from the number that the C interface uses for it.
use vstd::prelude::*;
use crate::native::{
    NVTT_ALPHA_MODE_NONE,
    NVTT_ALPHA_MODE_PREMULTIPLIED,
    NVTT_ALPHA_MODE_TRANSPARENCY,
    NVTT_INPUT_FORMAT_BGRA_8UB,
    NVTT_INPUT_FORMAT_RGBA_16F,
    NVTT_INPUT_FORMAT_RGBA_32F,
    NVTT_INPUT_FORMAT_R_32F,
    NVTT_MIPMAP_FILTER_BOX,
    NVTT_MIPMAP_FILTER_KAISER,
    NVTT_MIPMAP_FILTER_TRIANGLE,
    NVTT_QUALITY_FASTEST,
    NVTT_QUALITY_HIGHEST,
    NVTT_QUALITY_NORMAL,
    NVTT_QUALITY_PRODUCTION,
    NVTT_ROUND_MODE_NONE,
    NVTT_ROUND_MODE_TO_NEAREST_MULTIPLE_OF_FOUR,
    NVTT_ROUND_MODE_TO_NEAREST_POWER_OF_TWO,
    NVTT_ROUND_MODE_TO_NEXT_MULTIPLE_OF_FOUR,
    NVTT_ROUND_MODE_TO_NEXT_POWER_OF_TWO,
    NVTT_ROUND_MODE_TO_PREVIOUS_MULTIPLE_OF_FOUR,
    NVTT_ROUND_MODE_TO_PREVIOUS_POWER_OF_TWO,
    NVTT_TEXTURE_TYPE_2D,
    NVTT_TEXTURE_TYPE_3D,
    NVTT_TEXTURE_TYPE_ARRAY,
    NVTT_TEXTURE_TYPE_CUBE,
    NVTT_WRAP_MODE_CLAMP,
    NVTT_WRAP_MODE_MIRROR,
    NVTT_WRAP_MODE_REPEAT,
};

verus! {

/// Specifies how the alpha channel of the image is to be read.
#[derive(Clone, Copy, Debug, PartialEq, Eq, Hash, Structural)]
pub enum AlphaMode {
    /// The image does not contain any alpha information.
    NoAlpha,
    /// The image uses premultiplied alpha.
    Premultiplied,
    /// The image uses straight alpha: the color channels hold the color
    /// without transparency applied.
    Transparency,
}

impl AlphaMode {
    /// The engine's number for `self`.
    pub open spec fn native(self) -> u32 {
        match self {
            AlphaMode::NoAlpha => NVTT_ALPHA_MODE_NONE,
            AlphaMode::Premultiplied => NVTT_ALPHA_MODE_PREMULTIPLIED,
            AlphaMode::Transparency => NVTT_ALPHA_MODE_TRANSPARENCY,
        }
    }

    /// The alpha mode that the engine's number `raw` names, if it names one.
    pub open spec fn of_native(raw: u32) -> Option<AlphaMode> {
        if raw == NVTT_ALPHA_MODE_NONE {
            Some(AlphaMode::NoAlpha)
        } else if raw == NVTT_ALPHA_MODE_PREMULTIPLIED {
            Some(AlphaMode::Premultiplied)
        } else if raw == NVTT_ALPHA_MODE_TRANSPARENCY {
            Some(AlphaMode::Transparency)
        } else {
            None
        }
    }

    /// Translates `self` into the engine's number for it.
    pub fn to_native(self) -> (raw: u32)
        ensures
            raw == self.native(),
    {
        match self {
            AlphaMode::NoAlpha => NVTT_ALPHA_MODE_NONE,
            AlphaMode::Premultiplied => NVTT_ALPHA_MODE_PREMULTIPLIED,
            AlphaMode::Transparency => NVTT_ALPHA_MODE_TRANSPARENCY,
        }
    }

    /// Translates the engine's number `raw` back. A number that names no
    /// alpha mode gives `None`.
    pub fn from_native(raw: u32) -> (r: Option<AlphaMode>)
        ensures
            r == AlphaMode::of_native(raw),
            r matches Some(v) ==> v.native() == raw,
            r is None ==> forall|v: AlphaMode| v.native() != raw,
    {
        if raw == NVTT_ALPHA_MODE_NONE {
            Some(AlphaMode::NoAlpha)
        } else if raw == NVTT_ALPHA_MODE_PREMULTIPLIED {
            Some(AlphaMode::Premultiplied)
        } else if raw == NVTT_ALPHA_MODE_TRANSPARENCY {
            Some(AlphaMode::Transparency)
        } else {
            None
        }
    }

    /// Whether `raw` is the engine's number for `self`.
    pub fn eq_native(self, raw: u32) -> (r: bool)
        ensures
            r == (self.native() == raw),
    {
        self.to_native() == raw
    }

    /// A alpha mode survives the trip to the engine and back: translating its
    /// number gives the same alpha mode again.
    pub proof fn lemma_round_trip(self)
        ensures
            AlphaMode::of_native(self.native()) == Some(self),
    {
    }
}

/// The family of filter used to compute mipmaps.
#[derive(Clone, Copy, Debug, PartialEq, Eq, Hash, Structural)]
pub enum MipmapFilterKind {
    /// A box filter. This is the default.
    Box,
    /// A triangle filter.
    Triangle,
    /// A Kaiser-windowed filter, which takes parameters of its own.
    Kaiser,
}

impl MipmapFilterKind {
    /// The engine's number for `self`.
    pub open spec fn native(self) -> u32 {
        match self {
            MipmapFilterKind::Box => NVTT_MIPMAP_FILTER_BOX,
            MipmapFilterKind::Triangle => NVTT_MIPMAP_FILTER_TRIANGLE,
            MipmapFilterKind::Kaiser => NVTT_MIPMAP_FILTER_KAISER,
        }
    }

    /// The filter kind that the engine's number `raw` names, if it names one.
    pub open spec fn of_native(raw: u32) -> Option<MipmapFilterKind> {
        if raw == NVTT_MIPMAP_FILTER_BOX {
            Some(MipmapFilterKind::Box)
        } else if raw == NVTT_MIPMAP_FILTER_TRIANGLE {
            Some(MipmapFilterKind::Triangle)
        } else if raw == NVTT_MIPMAP_FILTER_KAISER {
            Some(MipmapFilterKind::Kaiser)
        } else {
            None
        }
    }

    /// Translates `self` into the engine's number for it.
    pub fn to_native(self) -> (raw: u32)
        ensures
            raw == self.native(),
    {
        match self {
            MipmapFilterKind::Box => NVTT_MIPMAP_FILTER_BOX,
            MipmapFilterKind::Triangle => NVTT_MIPMAP_FILTER_TRIANGLE,
            MipmapFilterKind::Kaiser => NVTT_MIPMAP_FILTER_KAISER,
        }
    }

    /// Translates the engine's number `raw` back. A number that names no
    /// filter kind gives `None`.
    pub fn from_native(raw: u32) -> (r: Option<MipmapFilterKind>)
        ensures
            r == MipmapFilterKind::of_native(raw),
            r matches Some(v) ==> v.native() == raw,
            r is None ==> forall|v: MipmapFilterKind| v.native() != raw,
    {
        if raw == NVTT_MIPMAP_FILTER_BOX {
            Some(MipmapFilterKind::Box)
        } else if raw == NVTT_MIPMAP_FILTER_TRIANGLE {
            Some(MipmapFilterKind::Triangle)
        } else if raw == NVTT_MIPMAP_FILTER_KAISER {
            Some(MipmapFilterKind::Kaiser)
        } else {
            None
        }
    }

    /// Whether `raw` is the engine's number for `self`.
    pub fn eq_native(self, raw: u32) -> (r: bool)
        ensures
            r == (self.native() == raw),
    {
        self.to_native() == raw
    }

    /// A filter kind survives the trip to the engine and back: translating its
    /// number gives the same filter kind again.
    pub proof fn lemma_round_trip(self)
        ensures
            MipmapFilterKind::of_native(self.native()) == Some(self),
    {
    }
}

impl Default for MipmapFilterKind {
    /// A box filter.
    fn default() -> (r: MipmapFilterKind)
        ensures
            r == MipmapFilterKind::Box,
    {
        MipmapFilterKind::Box
    }
}

/// The quality level of the compression.
#[derive(Clone, Copy, Debug, PartialEq, Eq, Hash, Structural)]
pub enum Quality {
    /// The lowest quality, at the fastest speed.
    Fastest,
    /// The highest quality.
    Highest,
    /// A medium quality that trades processing time against output
    /// quality. This is the default.
    Normal,
    /// Quality fit for shipped assets.
    Production,
}

impl Quality {
    /// The engine's number for `self`.
    pub open spec fn native(self) -> u32 {
        match self {
            Quality::Fastest => NVTT_QUALITY_FASTEST,
            Quality::Highest => NVTT_QUALITY_HIGHEST,
            Quality::Normal => NVTT_QUALITY_NORMAL,
            Quality::Production => NVTT_QUALITY_PRODUCTION,
        }
    }

    /// The quality level that the engine's number `raw` names, if it names one.
    pub open spec fn of_native(raw: u32) -> Option<Quality> {
        if raw == NVTT_QUALITY_FASTEST {
            Some(Quality::Fastest)
        } else if raw == NVTT_QUALITY_HIGHEST {
            Some(Quality::Highest)
        } else if raw == NVTT_QUALITY_NORMAL {
            Some(Quality::Normal)
        } else if raw == NVTT_QUALITY_PRODUCTION {
            Some(Quality::Production)
        } else {
            None
        }
    }

    /// Translates `self` into the engine's number for it.
    pub fn to_native(self) -> (raw: u32)
        ensures
            raw == self.native(),
    {
        match self {
            Quality::Fastest => NVTT_QUALITY_FASTEST,
            Quality::Highest => NVTT_QUALITY_HIGHEST,
            Quality::Normal => NVTT_QUALITY_NORMAL,
            Quality::Production => NVTT_QUALITY_PRODUCTION,
        }
    }

    /// Translates the engine's number `raw` back. A number that names no
    /// quality level gives `None`.
    pub fn from_native(raw: u32) -> (r: Option<Quality>)
        ensures
            r == Quality::of_native(raw),
            r matches Some(v) ==> v.native() == raw,
            r is None ==> forall|v: Quality| v.native() != raw,
    {
        if raw == NVTT_QUALITY_FASTEST {
            Some(Quality::Fastest)
        } else if raw == NVTT_QUALITY_HIGHEST {
            Some(Quality::Highest)
        } else if raw == NVTT_QUALITY_NORMAL {
            Some(Quality::Normal)
        } else if raw == NVTT_QUALITY_PRODUCTION {
            Some(Quality::Production)
        } else {
            None
        }
    }

    /// Whether `raw` is the engine's number for `self`.
    pub fn eq_native(self, raw: u32) -> (r: bool)
        ensures
            r == (self.native() == raw),
    {
        self.to_native() == raw
    }

    /// A quality level survives the trip to the engine and back: translating its
    /// number gives the same quality level again.
    pub proof fn lemma_round_trip(self)
        ensures
            Quality::of_native(self.native()) == Some(self),
    {
    }
}

impl Default for Quality {
    /// The medium quality.
    fn default() -> (r: Quality)
        ensures
            r == Quality::Normal,
    {
        Quality::Normal
    }
}

/// The color format of the input image.
#[derive(Clone, Copy, Debug, PartialEq, Eq, Hash, Structural)]
pub enum InputFormat {
    /// Four unsigned byte channels: blue, green, red and alpha.
    Bgra8Ub,
    /// Four 16-bit float channels: red, green, blue and alpha.
    Rgba16F,
    /// Four 32-bit float channels: red, green, blue and alpha.
    Rgba32F,
    /// A single 32-bit float channel.
    R32F,
}

impl InputFormat {
    /// The engine's number for `self`.
    pub open spec fn native(self) -> u32 {
        match self {
            InputFormat::Bgra8Ub => NVTT_INPUT_FORMAT_BGRA_8UB,
            InputFormat::Rgba16F => NVTT_INPUT_FORMAT_RGBA_16F,
            InputFormat::Rgba32F => NVTT_INPUT_FORMAT_RGBA_32F,
            InputFormat::R32F => NVTT_INPUT_FORMAT_R_32F,
        }
    }

    /// The input format that the engine's number `raw` names, if it names one.
    pub open spec fn of_native(raw: u32) -> Option<InputFormat> {
        if raw == NVTT_INPUT_FORMAT_BGRA_8UB {
            Some(InputFormat::Bgra8Ub)
        } else if raw == NVTT_INPUT_FORMAT_RGBA_16F {
            Some(InputFormat::Rgba16F)
        } else if raw == NVTT_INPUT_FORMAT_RGBA_32F {
            Some(InputFormat::Rgba32F)
        } else if raw == NVTT_INPUT_FORMAT_R_32F {
            Some(InputFormat::R32F)
        } else {
            None
        }
    }

    /// Translates `self` into the engine's number for it.
    pub fn to_native(self) -> (raw: u32)
        ensures
            raw == self.native(),
    {
        match self {
            InputFormat::Bgra8Ub => NVTT_INPUT_FORMAT_BGRA_8UB,
            InputFormat::Rgba16F => NVTT_INPUT_FORMAT_RGBA_16F,
            InputFormat::Rgba32F => NVTT_INPUT_FORMAT_RGBA_32F,
            InputFormat::R32F => NVTT_INPUT_FORMAT_R_32F,
        }
    }

    /// Translates the engine's number `raw` back. A number that names no
    /// input format gives `None`.
    pub fn from_native(raw: u32) -> (r: Option<InputFormat>)
        ensures
            r == InputFormat::of_native(raw),
            r matches Some(v) ==> v.native() == raw,
            r is None ==> forall|v: InputFormat| v.native() != raw,
    {
        if raw == NVTT_INPUT_FORMAT_BGRA_8UB {
            Some(InputFormat::Bgra8Ub)
        } else if raw == NVTT_INPUT_FORMAT_RGBA_16F {
            Some(InputFormat::Rgba16F)
        } else if raw == NVTT_INPUT_FORMAT_RGBA_32F {
            Some(InputFormat::Rgba32F)
        } else if raw == NVTT_INPUT_FORMAT_R_32F {
            Some(InputFormat::R32F)
        } else {
            None
        }
    }

    /// Whether `raw` is the engine's number for `self`.
    pub fn eq_native(self, raw: u32) -> (r: bool)
        ensures
            r == (self.native() == raw),
    {
        self.to_native() == raw
    }

    /// The number of bytes that one pixel takes in this format.
    pub open spec fn pixel_bytes(self) -> int {
        match self {
            InputFormat::Bgra8Ub => 4,
            InputFormat::Rgba16F => 8,
            InputFormat::Rgba32F => 16,
            InputFormat::R32F => 4,
        }
    }

    /// The number of bytes that one pixel takes in this format.
    pub fn bytes_per_pixel(self) -> (n: u8)
        ensures
            n == self.pixel_bytes(),
    {
        match self {
            InputFormat::Bgra8Ub => 4,
            InputFormat::Rgba16F => 8,
            InputFormat::Rgba32F => 16,
            InputFormat::R32F => 4,
        }
    }

    /// A input format survives the trip to the engine and back: translating its
    /// number gives the same input format again.
    pub proof fn lemma_round_trip(self)
        ensures
            InputFormat::of_native(self.native()) == Some(self),
    {
    }
}

/// Controls how the image's edge lengths are rounded before compression.
#[derive(Clone, Copy, Debug, PartialEq, Eq, Hash, Structural)]
pub enum RoundMode {
    /// The image size is not changed.
    Unrounded,
    /// Round each edge to the nearest multiple of four.
    ToNearestMultipleOfFour,
    /// Round each edge to the nearest power of two.
    ToNearestPowerOfTwo,
    /// Round each edge up to the next multiple of four.
    ToNextMultipleOfFour,
    /// Round each edge up to the next power of two.
    ToNextPowerOfTwo,
    /// Round each edge down to the previous multiple of four.
    ToPreviousMultipleOfFour,
    /// Round each edge down to the previous power of two.
    ToPreviousPowerOfTwo,
}

impl RoundMode {
    /// The engine's number for `self`.
    pub open spec fn native(self) -> u32 {
        match self {
            RoundMode::Unrounded => NVTT_ROUND_MODE_NONE,
            RoundMode::ToNearestMultipleOfFour => NVTT_ROUND_MODE_TO_NEAREST_MULTIPLE_OF_FOUR,
            RoundMode::ToNearestPowerOfTwo => NVTT_ROUND_MODE_TO_NEAREST_POWER_OF_TWO,
            RoundMode::ToNextMultipleOfFour => NVTT_ROUND_MODE_TO_NEXT_MULTIPLE_OF_FOUR,
            RoundMode::ToNextPowerOfTwo => NVTT_ROUND_MODE_TO_NEXT_POWER_OF_TWO,
            RoundMode::ToPreviousMultipleOfFour => NVTT_ROUND_MODE_TO_PREVIOUS_MULTIPLE_OF_FOUR,
            RoundMode::ToPreviousPowerOfTwo => NVTT_ROUND_MODE_TO_PREVIOUS_POWER_OF_TWO,
        }
    }

    /// The round mode that the engine's number `raw` names, if it names one.
    pub open spec fn of_native(raw: u32) -> Option<RoundMode> {
        if raw == NVTT_ROUND_MODE_NONE {
            Some(RoundMode::Unrounded)
        } else if raw == NVTT_ROUND_MODE_TO_NEAREST_MULTIPLE_OF_FOUR {
            Some(RoundMode::ToNearestMultipleOfFour)
        } else if raw == NVTT_ROUND_MODE_TO_NEAREST_POWER_OF_TWO {
            Some(RoundMode::ToNearestPowerOfTwo)
        } else if raw == NVTT_ROUND_MODE_TO_NEXT_MULTIPLE_OF_FOUR {
            Some(RoundMode::ToNextMultipleOfFour)
        } else if raw == NVTT_ROUND_MODE_TO_NEXT_POWER_OF_TWO {
            Some(RoundMode::ToNextPowerOfTwo)
        } else if raw == NVTT_ROUND_MODE_TO_PREVIOUS_MULTIPLE_OF_FOUR {
            Some(RoundMode::ToPreviousMultipleOfFour)
        } else if raw == NVTT_ROUND_MODE_TO_PREVIOUS_POWER_OF_TWO {
            Some(RoundMode::ToPreviousPowerOfTwo)
        } else {
            None
        }
    }

    /// Translates `self` into the engine's number for it.
    pub fn to_native(self) -> (raw: u32)
        ensures
            raw == self.native(),
    {
        match self {
            RoundMode::Unrounded => NVTT_ROUND_MODE_NONE,
            RoundMode::ToNearestMultipleOfFour => NVTT_ROUND_MODE_TO_NEAREST_MULTIPLE_OF_FOUR,
            RoundMode::ToNearestPowerOfTwo => NVTT_ROUND_MODE_TO_NEAREST_POWER_OF_TWO,
            RoundMode::ToNextMultipleOfFour => NVTT_ROUND_MODE_TO_NEXT_MULTIPLE_OF_FOUR,
            RoundMode::ToNextPowerOfTwo => NVTT_ROUND_MODE_TO_NEXT_POWER_OF_TWO,
            RoundMode::ToPreviousMultipleOfFour => NVTT_ROUND_MODE_TO_PREVIOUS_MULTIPLE_OF_FOUR,
            RoundMode::ToPreviousPowerOfTwo => NVTT_ROUND_MODE_TO_PREVIOUS_POWER_OF_TWO,
        }
    }

    /// Translates the engine's number `raw` back. A number that names no
    /// round mode gives `None`.
    pub fn from_native(raw: u32) -> (r: Option<RoundMode>)
        ensures
            r == RoundMode::of_native(raw),
            r matches Some(v) ==> v.native() == raw,
            r is None ==> forall|v: RoundMode| v.native() != raw,
    {
        if raw == NVTT_ROUND_MODE_NONE {
            Some(RoundMode::Unrounded)
        } else if raw == NVTT_ROUND_MODE_TO_NEAREST_MULTIPLE_OF_FOUR {
            Some(RoundMode::ToNearestMultipleOfFour)
        } else if raw == NVTT_ROUND_MODE_TO_NEAREST_POWER_OF_TWO {
            Some(RoundMode::ToNearestPowerOfTwo)
        } else if raw == NVTT_ROUND_MODE_TO_NEXT_MULTIPLE_OF_FOUR {
            Some(RoundMode::ToNextMultipleOfFour)
        } else if raw == NVTT_ROUND_MODE_TO_NEXT_POWER_OF_TWO {
            Some(RoundMode::ToNextPowerOfTwo)
        } else if raw == NVTT_ROUND_MODE_TO_PREVIOUS_MULTIPLE_OF_FOUR {
            Some(RoundMode::ToPreviousMultipleOfFour)
        } else if raw == NVTT_ROUND_MODE_TO_PREVIOUS_POWER_OF_TWO {
            Some(RoundMode::ToPreviousPowerOfTwo)
        } else {
            None
        }
    }

    /// Whether `raw` is the engine's number for `self`.
    pub fn eq_native(self, raw: u32) -> (r: bool)
        ensures
            r == (self.native() == raw),
    {
        self.to_native() == raw
    }

    /// A round mode survives the trip to the engine and back: translating its
    /// number gives the same round mode again.
    pub proof fn lemma_round_trip(self)
        ensures
            RoundMode::of_native(self.native()) == Some(self),
    {
    }
}

impl Default for RoundMode {
    /// No rounding.
    fn default() -> (r: RoundMode)
        ensures
            r == RoundMode::Unrounded,
    {
        RoundMode::Unrounded
    }
}

/// The shape of the texture.
#[derive(Clone, Copy, Debug, PartialEq, Eq, Hash, Structural)]
pub enum TextureType {
    /// A flat, two-dimensional texture.
    D2,
    /// A cube map of six faces.
    Cube,
    /// A volume texture.
    D3,
    /// An array of two-dimensional textures.
    Array,
}

impl TextureType {
    /// The engine's number for `self`.
    pub open spec fn native(self) -> u32 {
        match self {
            TextureType::D2 => NVTT_TEXTURE_TYPE_2D,
            TextureType::Cube => NVTT_TEXTURE_TYPE_CUBE,
            TextureType::D3 => NVTT_TEXTURE_TYPE_3D,
            TextureType::Array => NVTT_TEXTURE_TYPE_ARRAY,
        }
    }

    /// The texture type that the engine's number `raw` names, if it names one.
    pub open spec fn of_native(raw: u32) -> Option<TextureType> {
        if raw == NVTT_TEXTURE_TYPE_2D {
            Some(TextureType::D2)
        } else if raw == NVTT_TEXTURE_TYPE_CUBE {
            Some(TextureType::Cube)
        } else if raw == NVTT_TEXTURE_TYPE_3D {
            Some(TextureType::D3)
        } else if raw == NVTT_TEXTURE_TYPE_ARRAY {
            Some(TextureType::Array)
        } else {
            None
        }
    }

    /// Translates `self` into the engine's number for it.
    pub fn to_native(self) -> (raw: u32)
        ensures
            raw == self.native(),
    {
        match self {
            TextureType::D2 => NVTT_TEXTURE_TYPE_2D,
            TextureType::Cube => NVTT_TEXTURE_TYPE_CUBE,
            TextureType::D3 => NVTT_TEXTURE_TYPE_3D,
            TextureType::Array => NVTT_TEXTURE_TYPE_ARRAY,
        }
    }

    /// Translates the engine's number `raw` back. A number that names no
    /// texture type gives `None`.
    pub fn from_native(raw: u32) -> (r: Option<TextureType>)
        ensures
            r == TextureType::of_native(raw),
            r matches Some(v) ==> v.native() == raw,
            r is None ==> forall|v: TextureType| v.native() != raw,
    {
        if raw == NVTT_TEXTURE_TYPE_2D {
            Some(TextureType::D2)
        } else if raw == NVTT_TEXTURE_TYPE_CUBE {
            Some(TextureType::Cube)
        } else if raw == NVTT_TEXTURE_TYPE_3D {
            Some(TextureType::D3)
        } else if raw == NVTT_TEXTURE_TYPE_ARRAY {
            Some(TextureType::Array)
        } else {
            None
        }
    }

    /// Whether `raw` is the engine's number for `self`.
    pub fn eq_native(self, raw: u32) -> (r: bool)
        ensures
            r == (self.native() == raw),
    {
        self.to_native() == raw
    }

    /// A texture type survives the trip to the engine and back: translating its
    /// number gives the same texture type again.
    pub proof fn lemma_round_trip(self)
        ensures
            TextureType::of_native(self.native()) == Some(self),
    {
    }
}

impl Default for TextureType {
    /// A two-dimensional texture.
    fn default() -> (r: TextureType)
        ensures
            r == TextureType::D2,
    {
        TextureType::D2
    }
}

/// How the image continues beyond its edges when it is filtered.
#[derive(Clone, Copy, Debug, PartialEq, Eq, Hash, Structural)]
pub enum WrapMode {
    /// Coordinates beyond an edge read the edge's texel.
    Clamp,
    /// The image is mirrored beyond each edge.
    Mirror,
    /// The image repeats beyond each edge.
    Repeat,
}

impl WrapMode {
    /// The engine's number for `self`.
    pub open spec fn native(self) -> u32 {
        match self {
            WrapMode::Clamp => NVTT_WRAP_MODE_CLAMP,
            WrapMode::Mirror => NVTT_WRAP_MODE_MIRROR,
            WrapMode::Repeat => NVTT_WRAP_MODE_REPEAT,
        }
    }

    /// The wrap mode that the engine's number `raw` names, if it names one.
    pub open spec fn of_native(raw: u32) -> Option<WrapMode> {
        if raw == NVTT_WRAP_MODE_CLAMP {
            Some(WrapMode::Clamp)
        } else if raw == NVTT_WRAP_MODE_MIRROR {
            Some(WrapMode::Mirror)
        } else if raw == NVTT_WRAP_MODE_REPEAT {
            Some(WrapMode::Repeat)
        } else {
            None
        }
    }

    /// Translates `self` into the engine's number for it.
    pub fn to_native(self) -> (raw: u32)
        ensures
            raw == self.native(),
    {
        match self {
            WrapMode::Clamp => NVTT_WRAP_MODE_CLAMP,
            WrapMode::Mirror => NVTT_WRAP_MODE_MIRROR,
            WrapMode::Repeat => NVTT_WRAP_MODE_REPEAT,
        }
    }

    /// Translates the engine's number `raw` back. A number that names no
    /// wrap mode gives `None`.
    pub fn from_native(raw: u32) -> (r: Option<WrapMode>)
        ensures
            r == WrapMode::of_native(raw),
            r matches Some(v) ==> v.native() == raw,
            r is None ==> forall|v: WrapMode| v.native() != raw,
    {
        if raw == NVTT_WRAP_MODE_CLAMP {
            Some(WrapMode::Clamp)
        } else if raw == NVTT_WRAP_MODE_MIRROR {
            Some(WrapMode::Mirror)
        } else if raw == NVTT_WRAP_MODE_REPEAT {
            Some(WrapMode::Repeat)
        } else {
            None
        }
    }

    /// Whether `raw` is the engine's number for `self`.
    pub fn eq_native(self, raw: u32) -> (r: bool)
        ensures
            r == (self.native() == raw),
    {
        self.to_native() == raw
    }

    /// A wrap mode survives the trip to the engine and back: translating its
    /// number gives the same wrap mode again.
    pub proof fn lemma_round_trip(self)
        ensures
            WrapMode::of_native(self.native()) == Some(self),
    {
    }
}
} // verus!
