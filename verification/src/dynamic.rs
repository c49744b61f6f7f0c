//! Input from the `image` crate's `DynamicImage`.
//!
//! A `DynamicImage` holds its pixels in one of several layouts. The engine
//! reads none of them as they are, so the image is converted to BGRA bytes.
use vstd::prelude::*;
use crate::cint::as_int;
use crate::handles::{image_fits, mipmap_len};
use crate::options::InputFormat;
use crate::valid_image::{RawImage, ValidImage};

verus! {

/// The `image` crate's image of any pixel layout. Nothing inside it is
/// visible here.
#[verifier::external_type_specification]
#[verifier::external_body]
pub struct ExDynamicImage(image::DynamicImage);

/// The width and the height of `img`, in pixels.
pub uninterp spec fn dynamic_dimensions(img: &image::DynamicImage) -> (u32, u32);

/// The pixels of `img` converted to BGRA with one byte for each subpixel,
/// row by row.
pub uninterp spec fn dynamic_bgra(img: &image::DynamicImage) -> Seq<u8>;

/// The number of bytes that `img` takes once it is converted to BGRA.
pub open spec fn bgra_len(img: &image::DynamicImage) -> int {
    4 * dynamic_dimensions(img).0 * dynamic_dimensions(img).1
}

/// The width and the height of `img`.
///
/// Trusted: the body calls `GenericImageView::dimensions` on the image,
/// which returns the width and height of the buffer that the image holds.
#[verifier::external_body]
fn dimensions_of(img: &image::DynamicImage) -> (dims: (u32, u32))
    ensures
        dims == dynamic_dimensions(img),
{
    image::GenericImageView::dimensions(img)
}

/// The pixels of `img` as BGRA bytes.
///
/// Trusted: the body calls `DynamicImage::to_bgra8`, which makes a new
/// buffer of the image's width and height with four bytes for each pixel
/// and fills it from the image, and takes the bytes out of that buffer. The
/// call panics where the length of that buffer is more than a `usize`
/// holds, which `requires` leaves out.
#[verifier::external_body]
fn bgra_bytes_of(img: &image::DynamicImage) -> (bytes: Vec<u8>)
    requires
        bgra_len(img) <= usize::MAX,
    ensures
        bytes@ == dynamic_bgra(img),
        bytes@.len() == bgra_len(img),
{
    img.to_bgra8().into_raw()
}

/// Whether four bytes for each of `width` by `height` pixels are no more
/// than a `usize` holds.
pub fn bgra_len_fits(width: u32, height: u32) -> (fits: bool)
    ensures
        fits == (4 * width * height <= usize::MAX),
{
    let w: u128 = width as u128;
    let h: u128 = height as u128;
    assert(4 * w * h <= 4 * 0xffff_ffff * 0xffff_ffff) by (nonlinear_arith)
        requires
            0 <= w <= 0xffff_ffff,
            0 <= h <= 0xffff_ffff,
    ;
    let bytes: u128 = 4 * w * h;
    bytes <= usize::MAX as u128
}

impl ValidImage {
    /// Converts `img` into an image that the engine reads: its pixels as
    /// BGRA bytes, with its width and height.
    ///
    /// Gives `None` where the converted image would hold more bytes than a
    /// `usize` can count. An image of a width and height that the engine
    /// can count holds exactly the bytes that its size asks for.
    pub fn from_dynamic(img: &image::DynamicImage) -> (r: Option<ValidImage>)
        ensures
            bgra_len(img) > usize::MAX ==> r is None,
            bgra_len(img) <= usize::MAX ==> r is Some && r->Some_0 is Bgra && ({
                let raw = r->Some_0.raw();
                &&& (raw.width, raw.height) == dynamic_dimensions(img)
                &&& raw.bytes@ == dynamic_bgra(img)
                &&& raw.bytes@.len() == 4 * raw.width * raw.height
            }),
            r is Some && dynamic_dimensions(img).0 <= i32::MAX && dynamic_dimensions(img).1
                <= i32::MAX ==> image_fits(&r->Some_0),
    {
        let (width, height) = dimensions_of(img);
        if !bgra_len_fits(width, height) {
            return None;
        }
        let bytes = bgra_bytes_of(img);
        let image = ValidImage::Bgra(RawImage { width, height, bytes });
        proof {
            if width <= i32::MAX && height <= i32::MAX {
                assert(as_int(width) == width && as_int(height) == height);
                assert(mipmap_len(InputFormat::Bgra8Ub, as_int(width), as_int(height), 1) == 4
                    * width * height) by (nonlinear_arith)
                    requires
                        mipmap_len(InputFormat::Bgra8Ub, as_int(width), as_int(height), 1)
                            == as_int(width) * as_int(height) * 1 * 4,
                        as_int(width) == width,
                        as_int(height) == height,
                ;
            }
        }
        Some(image)
    }
}

} // verus!
