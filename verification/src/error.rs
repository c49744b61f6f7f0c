//! The errors that the engine reports.
use vstd::prelude::*;
use crate::boolean::NvttBoolean;
use crate::native::{
    NVTT_ERROR_CUDA_ERROR,
    NVTT_ERROR_FILE_OPEN,
    NVTT_ERROR_FILE_WRITE,
    NVTT_ERROR_INVALID_INPUT,
    NVTT_ERROR_UNKNOWN,
    NVTT_ERROR_UNSUPPORTED_FEATURE,
    NVTT_ERROR_UNSUPPORTED_OUTPUT_FORMAT,
};

verus! {

/// An error which may occur during compression.
#[derive(Clone, Copy, Debug, PartialEq, Eq, Hash, Structural)]
pub enum Error {
    /// An error occurred while running a CUDA kernel.
    CudaError,
    /// An error occurred while opening a file.
    FileOpen,
    /// An error occurred while writing a file.
    FileWrite,
    /// The input was invalid.
    InvalidInput,
    /// An unknown error occurred.
    Unknown,
    /// The requested feature is not supported.
    UnsupportedFeature,
    /// The requested output format is not supported.
    UnsupportedOutputFormat,
}

impl Error {
    /// The engine's number for `self`.
    pub open spec fn native(self) -> u32 {
        match self {
            Error::CudaError => NVTT_ERROR_CUDA_ERROR,
            Error::FileOpen => NVTT_ERROR_FILE_OPEN,
            Error::FileWrite => NVTT_ERROR_FILE_WRITE,
            Error::InvalidInput => NVTT_ERROR_INVALID_INPUT,
            Error::Unknown => NVTT_ERROR_UNKNOWN,
            Error::UnsupportedFeature => NVTT_ERROR_UNSUPPORTED_FEATURE,
            Error::UnsupportedOutputFormat => NVTT_ERROR_UNSUPPORTED_OUTPUT_FORMAT,
        }
    }

    /// The error that the engine's number `raw` names, if it names one.
    pub open spec fn of_native(raw: u32) -> Option<Error> {
        if raw == NVTT_ERROR_CUDA_ERROR {
            Some(Error::CudaError)
        } else if raw == NVTT_ERROR_FILE_OPEN {
            Some(Error::FileOpen)
        } else if raw == NVTT_ERROR_FILE_WRITE {
            Some(Error::FileWrite)
        } else if raw == NVTT_ERROR_INVALID_INPUT {
            Some(Error::InvalidInput)
        } else if raw == NVTT_ERROR_UNKNOWN {
            Some(Error::Unknown)
        } else if raw == NVTT_ERROR_UNSUPPORTED_FEATURE {
            Some(Error::UnsupportedFeature)
        } else if raw == NVTT_ERROR_UNSUPPORTED_OUTPUT_FORMAT {
            Some(Error::UnsupportedOutputFormat)
        } else {
            None
        }
    }

    /// Translates `self` into the engine's number for it.
    pub fn to_native(self) -> (raw: u32)
        ensures
            raw == self.native(),
    {
        match self {
            Error::CudaError => NVTT_ERROR_CUDA_ERROR,
            Error::FileOpen => NVTT_ERROR_FILE_OPEN,
            Error::FileWrite => NVTT_ERROR_FILE_WRITE,
            Error::InvalidInput => NVTT_ERROR_INVALID_INPUT,
            Error::Unknown => NVTT_ERROR_UNKNOWN,
            Error::UnsupportedFeature => NVTT_ERROR_UNSUPPORTED_FEATURE,
            Error::UnsupportedOutputFormat => NVTT_ERROR_UNSUPPORTED_OUTPUT_FORMAT,
        }
    }

    /// Translates the engine's number `raw` back. A number that names no
    /// error gives `None`.
    pub fn from_native(raw: u32) -> (r: Option<Error>)
        ensures
            r == Error::of_native(raw),
            r matches Some(v) ==> v.native() == raw,
            r is None ==> forall|v: Error| v.native() != raw,
    {
        if raw == NVTT_ERROR_CUDA_ERROR {
            Some(Error::CudaError)
        } else if raw == NVTT_ERROR_FILE_OPEN {
            Some(Error::FileOpen)
        } else if raw == NVTT_ERROR_FILE_WRITE {
            Some(Error::FileWrite)
        } else if raw == NVTT_ERROR_INVALID_INPUT {
            Some(Error::InvalidInput)
        } else if raw == NVTT_ERROR_UNKNOWN {
            Some(Error::Unknown)
        } else if raw == NVTT_ERROR_UNSUPPORTED_FEATURE {
            Some(Error::UnsupportedFeature)
        } else if raw == NVTT_ERROR_UNSUPPORTED_OUTPUT_FORMAT {
            Some(Error::UnsupportedOutputFormat)
        } else {
            None
        }
    }

    /// Whether `raw` is the engine's number for `self`.
    pub fn eq_native(self, raw: u32) -> (r: bool)
        ensures
            r == (self.native() == raw),
    {
        self.to_native() == raw
    }

    /// The error that a code reported by the engine stands for. A code that
    /// names no error, and the absence of any code, both stand for
    /// [`Error::Unknown`].
    pub open spec fn of_report(code: Option<u32>) -> Error {
        match code {
            Some(raw) => match Error::of_native(raw) {
                Some(e) => e,
                None => Error::Unknown,
            },
            None => Error::Unknown,
        }
    }

    /// The error to hand to the caller when the engine reported `code`, or
    /// reported nothing, before it failed.
    pub fn from_report(code: Option<u32>) -> (e: Error)
        ensures
            e == Error::of_report(code),
    {
        match code {
            Some(raw) => match Error::from_native(raw) {
                Some(e) => e,
                None => Error::Unknown,
            },
            None => Error::Unknown,
        }
    }

    /// Turns the engine's yes-or-no answer to a request into a result: a
    /// refusal carries no code of its own and becomes [`Error::Unknown`].
    pub fn from_status(status: NvttBoolean) -> (r: Result<(), Error>)
        ensures
            status.as_bool() ==> r == Ok::<(), Error>(()),
            !status.as_bool() ==> r == Err::<(), Error>(Error::Unknown),
    {
        match status {
            NvttBoolean::NVTT_True => Ok(()),
            NvttBoolean::NVTT_False => Err(Error::Unknown),
        }
    }

    /// A error survives the trip to the engine and back: translating its
    /// number gives the same error again.
    pub proof fn lemma_round_trip(self)
        ensures
            Error::of_native(self.native()) == Some(self),
    {
    }
}

impl Default for Error {
    /// The error of which nothing more is known.
    fn default() -> (r: Error)
        ensures
            r == Error::Unknown,
    {
        Error::Unknown
    }
}

} // verus!
