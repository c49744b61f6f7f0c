//! The objects of the engine that a compression is made of, and what the
//! Rust side knows of each.
use vstd::prelude::*;
use crate::boolean::NvttBoolean;
use crate::cint::{as_int, int_from_native};
use crate::error::Error;
use crate::options::{InputFormat, TextureType};
use crate::path::{c_filepath, to_c_filepath, PathConvertError, PathFamily};
use crate::session::{CompressionOutput, OutputContent, Session, SessionState};
use crate::valid_image::ValidImage;

verus! {

/// Where the compressed texture is to go.
#[derive(Clone, Copy, Debug, PartialEq, Eq, Hash)]
pub enum OutputLocation<'a> {
    /// Into the file of this name, given as the bytes of the path.
    File(&'a [u8]),
    /// Into memory. The compression then hands the bytes back.
    Buffer,
}

/// The layout of a texture that holds one image, as the engine is told it.
#[derive(Clone, Copy, Debug, PartialEq, Eq, Hash, Structural)]
pub struct ImageLayout {
    pub format: InputFormat,
    pub texture_type: TextureType,
    pub width: i32,
    pub height: i32,
    pub depth: i32,
    pub array_size: i32,
}

/// The number of bytes that an image of `w` by `h` by `d` pixels takes in
/// `format`.
pub open spec fn mipmap_len(format: InputFormat, w: i32, h: i32, d: i32) -> int {
    w * h * d * format.pixel_bytes()
}

/// The layout of the texture made of `image` alone: flat, of the image's
/// width and height, one pixel deep, with one entry.
pub open spec fn image_layout(image: &ValidImage) -> ImageLayout {
    ImageLayout {
        format: image.pixel_format(),
        texture_type: TextureType::D2,
        width: as_int(image.raw().width),
        height: as_int(image.raw().height),
        depth: 1,
        array_size: 1,
    }
}

/// Whether `image` holds exactly the bytes that its size and format ask for.
pub open spec fn image_fits(image: &ValidImage) -> bool {
    image.raw().bytes@.len() == mipmap_len(
        image.pixel_format(),
        as_int(image.raw().width),
        as_int(image.raw().height),
        1,
    )
}

/// The `Compressor` is used to perform the texture compression.
///
/// It stands for one object of the engine, named by the address that the
/// engine gave out for it. The address is never zero.
#[derive(Debug)]
pub struct Compressor {
    handle: usize,
}

impl Compressor {
    #[verifier::type_invariant]
    spec fn addressed(&self) -> bool {
        self.handle != 0
    }

    /// The address of the engine's object.
    pub closed spec fn addr(&self) -> usize {
        self.handle
    }

    /// Takes charge of the object that the engine made at address `raw`.
    /// The engine answers a failed construction with the address zero, which
    /// gives [`Error::Unknown`].
    pub fn from_raw(raw: usize) -> (r: Result<Compressor, Error>)
        ensures
            raw == 0 ==> r is Err && r->Err_0 == Error::Unknown,
            raw != 0 ==> r is Ok && r->Ok_0.addr() == raw,
    {
        if raw == 0 {
            Err(Error::Unknown)
        } else {
            Ok(Compressor { handle: raw })
        }
    }

    /// The address of the engine's object, for a call on it.
    pub fn as_raw(&self) -> (raw: usize)
        ensures
            raw == self.addr(),
            raw != 0,
    {
        proof {
            use_type_invariant(self);
        }
        self.handle
    }

    /// Gives up the object and returns its address. From then on it is the
    /// caller who has to have the engine destroy it.
    pub fn into_raw(self) -> (raw: usize)
        ensures
            raw == self.addr(),
            raw != 0,
    {
        proof {
            use_type_invariant(&self);
        }
        self.handle
    }

    /// The first step of a compression: makes `session` idle, and says
    /// whether the output hooks have to be installed on the output options
    /// before the engine is started. They have to be where the output goes
    /// to memory. The error hook is installed in either case.
    pub fn begin_compress(&self, session: &mut Session, output_options: &OutputOptions) -> (hooks:
        bool)
        ensures
            final(session)@ == SessionState::idle(),
            hooks == !output_options.to_file(),
    {
        session.start();
        !output_options.writes_to_file()
    }

    /// The last step of a compression: turns the engine's answer `status`
    /// and what the hooks gathered in `session` into the caller's result,
    /// and makes `session` idle.
    pub fn end_compress(
        &self,
        session: &mut Session,
        status: NvttBoolean,
        output_options: &OutputOptions,
    ) -> (r: Result<CompressionOutput, Error>)
        ensures
            final(session)@ == SessionState::idle(),
            match r {
                Ok(out) => old(session)@.outcome(status.as_bool(), output_options.to_file())
                    == Ok::<OutputContent, Error>(out@),
                Err(e) => old(session)@.outcome(status.as_bool(), output_options.to_file())
                    == Err::<OutputContent, Error>(e),
            },
    {
        session.finish(status, output_options.writes_to_file())
    }
}

/// Object which stores the compression options for the texture.
///
/// It stands for one object of the engine, named by the address that the
/// engine gave out for it. The address is never zero.
#[derive(Debug)]
pub struct CompressionOptions {
    handle: usize,
}

impl CompressionOptions {
    #[verifier::type_invariant]
    spec fn addressed(&self) -> bool {
        self.handle != 0
    }

    /// The address of the engine's object.
    pub closed spec fn addr(&self) -> usize {
        self.handle
    }

    /// Takes charge of the object that the engine made at address `raw`.
    /// The engine answers a failed construction with the address zero, which
    /// gives [`Error::Unknown`].
    pub fn from_raw(raw: usize) -> (r: Result<CompressionOptions, Error>)
        ensures
            raw == 0 ==> r is Err && r->Err_0 == Error::Unknown,
            raw != 0 ==> r is Ok && r->Ok_0.addr() == raw,
    {
        if raw == 0 {
            Err(Error::Unknown)
        } else {
            Ok(CompressionOptions { handle: raw })
        }
    }

    /// The address of the engine's object, for a call on it.
    pub fn as_raw(&self) -> (raw: usize)
        ensures
            raw == self.addr(),
            raw != 0,
    {
        proof {
            use_type_invariant(self);
        }
        self.handle
    }

    /// Gives up the object and returns its address. From then on it is the
    /// caller who has to have the engine destroy it.
    pub fn into_raw(self) -> (raw: usize)
        ensures
            raw == self.addr(),
            raw != 0,
    {
        proof {
            use_type_invariant(&self);
        }
        self.handle
    }
}

/// Object which stores the input options for the texture.
///
/// It stands for one object of the engine, named by the address that the
/// engine gave out for it. The address is never zero.
#[derive(Debug)]
pub struct InputOptions {
    handle: usize,
    format: InputFormat,
}

impl InputOptions {
    #[verifier::type_invariant]
    spec fn addressed(&self) -> bool {
        self.handle != 0
    }

    /// The address of the engine's object.
    pub closed spec fn addr(&self) -> usize {
        self.handle
    }

    /// Takes charge of the object that the engine made at address `raw`.
    /// The engine answers a failed construction with the address zero, which
    /// gives [`Error::Unknown`].
    pub fn from_raw(raw: usize) -> (r: Result<InputOptions, Error>)
        ensures
            raw == 0 ==> r is Err && r->Err_0 == Error::Unknown,
            raw != 0 ==> r is Ok && r->Ok_0.addr() == raw
                && r->Ok_0.declared_format() == InputFormat::Bgra8Ub,
    {
        if raw == 0 {
            Err(Error::Unknown)
        } else {
            Ok(InputOptions { handle: raw, format: InputFormat::Bgra8Ub })
        }
    }

    /// The address of the engine's object, for a call on it.
    pub fn as_raw(&self) -> (raw: usize)
        ensures
            raw == self.addr(),
            raw != 0,
    {
        proof {
            use_type_invariant(self);
        }
        self.handle
    }

    /// Gives up the object and returns its address. From then on it is the
    /// caller who has to have the engine destroy it.
    pub fn into_raw(self) -> (raw: usize)
        ensures
            raw == self.addr(),
            raw != 0,
    {
        proof {
            use_type_invariant(&self);
        }
        self.handle
    }

    /// The color format that the input data is declared to have.
    pub closed spec fn declared_format(&self) -> InputFormat {
        self.format
    }

    /// The color format that the input data is declared to have.
    pub fn format(&self) -> (f: InputFormat)
        ensures
            f == self.declared_format(),
    {
        self.format
    }

    /// Declares the color format of the input data, and returns the number
    /// under which to declare it to the engine.
    pub fn set_format(&mut self, format: InputFormat) -> (raw: u32)
        ensures
            final(self).declared_format() == format,
            final(self).addr() == old(self).addr(),
            raw == format.native(),
    {
        proof {
            use_type_invariant(&*self);
        }
        self.format = format;
        format.to_native()
    }

    /// Decides whether `data` can be handed to the engine as the pixels of
    /// an image of `w` by `h` by `d` pixels in the declared format.
    ///
    /// The engine reads as many bytes as such an image has and cannot see
    /// how many there are. So `data` is refused, with [`Error::Unknown`] and
    /// before anything reaches the engine, unless its length is exactly
    /// that.
    pub fn check_mipmap_data(&self, data: &[u8], w: i32, h: i32, d: i32) -> (r: Result<(), Error>)
        ensures
            data@.len() == mipmap_len(self.declared_format(), w, h, d) ==> r == Ok::<(), Error>(
                (),
            ),
            data@.len() != mipmap_len(self.declared_format(), w, h, d) ==> r == Err::<(), Error>(
                Error::Unknown,
            ),
    {
        let bpp: i128 = self.format.bytes_per_pixel() as i128;
        let w0: i128 = w as i128;
        let h0: i128 = h as i128;
        let d0: i128 = d as i128;
        assert(-0x4000_0000_0000_0000 <= w0 * h0 <= 0x4000_0000_0000_0000) by (nonlinear_arith)
            requires
                -0x8000_0000 <= w0 < 0x8000_0000,
                -0x8000_0000 <= h0 < 0x8000_0000,
        ;
        let area: i128 = w0 * h0;
        assert(-0x2000_0000_0000_0000_0000_0000 <= area * d0 <= 0x2000_0000_0000_0000_0000_0000)
            by (nonlinear_arith)
            requires
                -0x4000_0000_0000_0000 <= area <= 0x4000_0000_0000_0000,
                -0x8000_0000 <= d0 < 0x8000_0000,
        ;
        let volume: i128 = area * d0;
        assert(-0x2_0000_0000_0000_0000_0000_0000 <= volume * bpp
            <= 0x2_0000_0000_0000_0000_0000_0000) by (nonlinear_arith)
            requires
                -0x2000_0000_0000_0000_0000_0000 <= volume <= 0x2000_0000_0000_0000_0000_0000,
                0 <= bpp <= 16,
        ;
        let expected: i128 = volume * bpp;
        assert(expected == mipmap_len(self.declared_format(), w, h, d)) by (nonlinear_arith)
            requires
                expected == ((w0 * h0) * d0) * bpp,
                w0 == w,
                h0 == h,
                d0 == d,
                bpp == self.declared_format().pixel_bytes(),
                mipmap_len(self.declared_format(), w, h, d) == w * h * d
                    * self.declared_format().pixel_bytes(),
        ;
        if data.len() as i128 == expected {
            Ok(())
        } else {
            Err(Error::Unknown)
        }
    }

    /// Prepares the input for `image`: declares the format of its pixels
    /// and works out the layout of the texture, a flat one of the image's
    /// size.
    ///
    /// Fails with [`Error::Unknown`] where the image does not hold as many
    /// bytes as its size and format ask for. The format is declared even
    /// then.
    pub fn set_image(&mut self, image: &ValidImage) -> (r: Result<ImageLayout, Error>)
        ensures
            final(self).addr() == old(self).addr(),
            final(self).declared_format() == image.pixel_format(),
            image_fits(image) ==> r == Ok::<ImageLayout, Error>(image_layout(image)),
            !image_fits(image) ==> r == Err::<ImageLayout, Error>(Error::Unknown),
    {
        let (width, height) = image.image_dimensions();
        let format = image.format();
        let _ = self.set_format(format);
        let w: i32 = int_from_native(width);
        let h: i32 = int_from_native(height);
        match self.check_mipmap_data(image.data_bytes(), w, h, 1) {
            Ok(()) => Ok(
                ImageLayout {
                    format,
                    texture_type: TextureType::D2,
                    width: w,
                    height: h,
                    depth: 1,
                    array_size: 1,
                },
            ),
            Err(e) => Err(e),
        }
    }
}

/// Object which stores the output options for the texture.
///
/// It stands for one object of the engine, named by the address that the
/// engine gave out for it. The address is never zero.
#[derive(Debug)]
pub struct OutputOptions {
    handle: usize,
    write_to_file: bool,
}

impl OutputOptions {
    #[verifier::type_invariant]
    spec fn addressed(&self) -> bool {
        self.handle != 0
    }

    /// The address of the engine's object.
    pub closed spec fn addr(&self) -> usize {
        self.handle
    }

    /// Takes charge of the object that the engine made at address `raw`.
    /// The engine answers a failed construction with the address zero, which
    /// gives [`Error::Unknown`].
    pub fn from_raw(raw: usize) -> (r: Result<OutputOptions, Error>)
        ensures
            raw == 0 ==> r is Err && r->Err_0 == Error::Unknown,
            raw != 0 ==> r is Ok && r->Ok_0.addr() == raw
                && r->Ok_0.to_file(),
    {
        if raw == 0 {
            Err(Error::Unknown)
        } else {
            Ok(OutputOptions { handle: raw, write_to_file: true })
        }
    }

    /// The address of the engine's object, for a call on it.
    pub fn as_raw(&self) -> (raw: usize)
        ensures
            raw == self.addr(),
            raw != 0,
    {
        proof {
            use_type_invariant(self);
        }
        self.handle
    }

    /// Gives up the object and returns its address. From then on it is the
    /// caller who has to have the engine destroy it.
    pub fn into_raw(self) -> (raw: usize)
        ensures
            raw == self.addr(),
            raw != 0,
    {
        proof {
            use_type_invariant(&self);
        }
        self.handle
    }

    /// Whether the output goes to a file. Otherwise it goes to memory.
    pub closed spec fn to_file(&self) -> bool {
        self.write_to_file
    }

    /// Whether the output goes to a file. Otherwise it goes to memory, and
    /// the output hooks have to be installed before the engine is started.
    pub fn writes_to_file(&self) -> (b: bool)
        ensures
            b == self.to_file(),
    {
        self.write_to_file
    }

    /// Sets where the output goes, and returns the C string of the file
    /// name to give to the engine, if there is one to give.
    ///
    /// For a file whose name cannot be converted under the rules of
    /// `family` the call fails and changes nothing: the engine is given
    /// nothing, and the output goes where it went before.
    pub fn set_output_location(&mut self, location: OutputLocation<'_>, family: PathFamily) -> (r:
        Result<Option<Vec<u8>>, PathConvertError>)
        ensures
            final(self).addr() == old(self).addr(),
            match location {
                OutputLocation::Buffer => r == Ok::<Option<Vec<u8>>, PathConvertError>(None)
                    && !final(self).to_file(),
                OutputLocation::File(path) => match r {
                    Ok(Some(name)) => c_filepath(path@, family) == Ok::<
                        Seq<u8>,
                        PathConvertError,
                    >(name@) && final(self).to_file(),
                    Ok(None) => false,
                    Err(e) => c_filepath(path@, family) == Err::<Seq<u8>, PathConvertError>(e)
                        && final(self).to_file() == old(self).to_file(),
                },
            },
    {
        proof {
            use_type_invariant(&*self);
        }
        match location {
            OutputLocation::File(path) => {
                match to_c_filepath(path, family) {
                    Ok(name) => {
                        self.write_to_file = true;
                        Ok(Some(name))
                    },
                    Err(e) => Err(e),
                }
            },
            OutputLocation::Buffer => {
                self.write_to_file = false;
                Ok(None)
            },
        }
    }
}

} // verus!
