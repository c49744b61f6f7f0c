//! Safe front for the NVIDIA Texture Tools compression engine.
//!
//! The engine itself is native code reached through a C interface. This crate
//! holds everything on the Rust side of that interface that can be reasoned
//! about: the numeric codes of every option, the conversion of file paths to
//! C strings, the checks made before data is handed over, and the bridge that
//! turns the engine's output callbacks into one owned buffer.
pub mod boolean;
pub mod cint;
pub mod container;
pub mod dynamic;
pub mod error;
pub mod format;
pub mod handles;
pub mod native;
pub mod options;
pub mod path;
pub mod session;
pub mod valid_image;

pub use crate::boolean::NvttBoolean;
pub use crate::cint::{int_from_native, size_from_native};
pub use crate::container::Container;
pub use crate::error::Error;
pub use crate::format::Format;
pub use crate::handles::{
    CompressionOptions, Compressor, ImageLayout, InputOptions, OutputLocation, OutputOptions,
};
pub use crate::native::version;
pub use crate::options::{
    AlphaMode, InputFormat, MipmapFilterKind, Quality, RoundMode, TextureType, WrapMode,
};
pub use crate::path::{to_c_filepath, PathConvertError, PathFamily};
pub use crate::session::{CompressionOutput, Session};
pub use crate::valid_image::{RawImage, ValidImage};
