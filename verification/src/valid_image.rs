//! Images held in memory, in the pixel formats that the engine reads.
use vstd::prelude::*;
use crate::options::InputFormat;

verus! {

/// The pixels of an image as plain bytes, row by row, with its size.
#[derive(Clone, Debug, PartialEq, Eq, Hash)]
pub struct RawImage {
    /// The width in pixels.
    pub width: u32,
    /// The height in pixels.
    pub height: u32,
    /// The bytes of the pixels, in the byte order of the machine.
    pub bytes: Vec<u8>,
}

/// An enumeration of the image buffers that can be handed to the engine.
#[derive(Clone, Debug, PartialEq, Eq, Hash)]
pub enum ValidImage {
    /// A bgra image with one byte for each subpixel.
    Bgra(RawImage),
    /// An rgba image with a 32-bit float for each subpixel.
    Rgba(RawImage),
    /// A luma image with a 32-bit float for each pixel.
    Luma(RawImage),
}

impl ValidImage {
    /// The pixels and the size of the image.
    pub open spec fn raw(&self) -> RawImage {
        match *self {
            ValidImage::Bgra(i) => i,
            ValidImage::Rgba(i) => i,
            ValidImage::Luma(i) => i,
        }
    }

    /// The input format that the engine has to be told for this image.
    pub open spec fn pixel_format(&self) -> InputFormat {
        match *self {
            ValidImage::Bgra(_) => InputFormat::Bgra8Ub,
            ValidImage::Rgba(_) => InputFormat::Rgba32F,
            ValidImage::Luma(_) => InputFormat::R32F,
        }
    }

    /// The input format that the engine has to be told for this image.
    pub fn format(&self) -> (f: InputFormat)
        ensures
            f == self.pixel_format(),
    {
        match *self {
            ValidImage::Bgra(_) => InputFormat::Bgra8Ub,
            ValidImage::Rgba(_) => InputFormat::Rgba32F,
            ValidImage::Luma(_) => InputFormat::R32F,
        }
    }

    /// The width and the height of the image, in pixels.
    pub fn image_dimensions(&self) -> (dims: (u32, u32))
        ensures
            dims == (self.raw().width, self.raw().height),
    {
        match self {
            ValidImage::Bgra(i) => (i.width, i.height),
            ValidImage::Rgba(i) => (i.width, i.height),
            ValidImage::Luma(i) => (i.width, i.height),
        }
    }

    /// The bytes of the pixels.
    pub fn data_bytes(&self) -> (bytes: &[u8])
        ensures
            bytes@ == self.raw().bytes@,
    {
        match self {
            ValidImage::Bgra(i) => i.bytes.as_slice(),
            ValidImage::Rgba(i) => i.bytes.as_slice(),
            ValidImage::Luma(i) => i.bytes.as_slice(),
        }
    }
}

} // verus!
