//! Turning the name of an output file into the C string that the engine
//! takes.
//!
//! The engine reads a file name as bytes that end at the first zero byte. On
//! Unix it takes any bytes. On Windows it takes ASCII only, so a name must
//! first be text and then be ASCII. On either, a name that holds a zero byte
//! cannot be handed over.
use vstd::prelude::*;
use vstd::utf8::valid_utf8;

verus! {

/// The family of platforms whose rules a file name has to meet.
#[derive(Clone, Copy, Debug, PartialEq, Eq, Hash, Structural)]
pub enum PathFamily {
    /// File names are arbitrary bytes.
    Unix,
    /// File names have to be ASCII.
    Windows,
}

/// An error type for when a path could not be converted.
#[derive(Clone, Copy, Debug, PartialEq, Eq, Hash, Structural)]
pub enum PathConvertError {
    /// The path is not valid Unicode text.
    Utf8Convert,
    /// The path holds a character outside ASCII.
    AsciiConvert,
    /// The path holds a zero byte, the first of them at this position.
    Nul(usize),
}

impl PathConvertError {
    /// The words for this error.
    pub open spec fn words(self) -> Seq<char> {
        match self {
            PathConvertError::Utf8Convert => "Could not convert path losslessly to UTF8 string"@,
            PathConvertError::AsciiConvert => "The given path was not valid ASCII"@,
            PathConvertError::Nul(_) => "The given path contained a nul byte"@,
        }
    }

    /// Says in words what went wrong.
    pub fn message(&self) -> (text: &'static str)
        ensures
            text@ == self.words(),
    {
        match *self {
            PathConvertError::Utf8Convert => "Could not convert path losslessly to UTF8 string",
            PathConvertError::AsciiConvert => "The given path was not valid ASCII",
            PathConvertError::Nul(_) => "The given path contained a nul byte",
        }
    }

    /// The position of the zero byte that stopped the conversion, where one
    /// did.
    pub fn nul_position(&self) -> (pos: Option<usize>)
        ensures
            pos == (match *self {
                PathConvertError::Nul(p) => Some(p),
                _ => None::<usize>,
            }),
    {
        match *self {
            PathConvertError::Nul(p) => Some(p),
            _ => None,
        }
    }
}

/// Whether every byte of `bytes` is an ASCII character.
pub open spec fn is_ascii_bytes(bytes: Seq<u8>) -> bool {
    forall|i: int| 0 <= i < bytes.len() ==> #[trigger] bytes[i] < 0x80
}

/// Whether no byte of `bytes` is zero.
pub open spec fn nul_free(bytes: Seq<u8>) -> bool {
    forall|i: int| 0 <= i < bytes.len() ==> #[trigger] bytes[i] != 0
}

/// Whether the first zero byte of `bytes` is the one at `pos`.
pub open spec fn first_nul_at(bytes: Seq<u8>, pos: int) -> bool {
    &&& 0 <= pos < bytes.len()
    &&& bytes[pos] == 0
    &&& forall|j: int| 0 <= j < pos ==> #[trigger] bytes[j] != 0
}

/// The position of the first zero byte of `bytes`, where it has one.
pub open spec fn first_nul(bytes: Seq<u8>) -> int {
    choose|pos: int| first_nul_at(bytes, pos)
}

/// The C string for the file name `path`, or the reason why it has none.
///
/// On Windows a name that is not Unicode text is refused first, then one
/// that is not ASCII. On both families a name with a zero byte is refused,
/// with the position of the first one. Any other name gives its own bytes
/// with a zero byte behind them.
pub open spec fn c_filepath(path: Seq<u8>, family: PathFamily) -> Result<
    Seq<u8>,
    PathConvertError,
> {
    if family is Windows && !valid_utf8(path) {
        Err(PathConvertError::Utf8Convert)
    } else if family is Windows && !is_ascii_bytes(path) {
        Err(PathConvertError::AsciiConvert)
    } else if !nul_free(path) {
        Err(PathConvertError::Nul(first_nul(path) as usize))
    } else {
        Ok(path.push(0))
    }
}

/// A sequence has at most one first zero byte.
pub proof fn lemma_first_nul_is_unique(bytes: Seq<u8>, pos: int)
    requires
        first_nul_at(bytes, pos),
    ensures
        first_nul(bytes) == pos,
        !nul_free(bytes),
{
    let other = first_nul(bytes);
    assert(first_nul_at(bytes, other));
    if other < pos {
        assert(bytes[other] != 0);
    }
    if pos < other {
        assert(bytes[pos] != 0);
    }
}

/// Whether `bytes` are valid UTF-8.
///
/// Trusted: the body calls `core::str::from_utf8`, which returns `Ok` for
/// exactly the byte strings that are well-formed UTF-8.
#[verifier::external_body]
fn is_utf8(bytes: &[u8]) -> (ok: bool)
    ensures
        ok == valid_utf8(bytes@),
{
    core::str::from_utf8(bytes).is_ok()
}

/// Whether every byte of `bytes` is an ASCII character.
pub fn all_ascii(bytes: &[u8]) -> (r: bool)
    ensures
        r == is_ascii_bytes(bytes@),
{
    let n: usize = bytes.len();
    let mut i: usize = 0;
    while i < n
        invariant
            n == bytes@.len(),
            i <= n,
            forall|j: int| 0 <= j < i ==> #[trigger] bytes@[j] < 0x80,
        decreases n - i,
    {
        if bytes[i] >= 0x80 {
            return false;
        }
        i += 1;
    }
    true
}

/// The position of the first zero byte of `bytes`, if it has one.
pub fn find_nul(bytes: &[u8]) -> (r: Option<usize>)
    ensures
        r matches Some(pos) ==> first_nul_at(bytes@, pos as int),
        r is None ==> nul_free(bytes@),
{
    let n: usize = bytes.len();
    let mut i: usize = 0;
    while i < n
        invariant
            n == bytes@.len(),
            i <= n,
            forall|j: int| 0 <= j < i ==> #[trigger] bytes@[j] != 0,
        decreases n - i,
    {
        if bytes[i] == 0 {
            return Some(i);
        }
        i += 1;
    }
    None
}

/// Converts the file name `path` into the C string that the engine takes:
/// the bytes of the name with a zero byte behind them.
///
/// Fails, without anything having been handed to the engine, where the name
/// does not meet the rules of `family` or holds a zero byte.
pub fn to_c_filepath(path: &[u8], family: PathFamily) -> (r: Result<Vec<u8>, PathConvertError>)
    ensures
        match r {
            Ok(c) => c_filepath(path@, family) == Ok::<Seq<u8>, PathConvertError>(c@),
            Err(e) => c_filepath(path@, family) == Err::<Seq<u8>, PathConvertError>(e),
        },
        !nul_free(path@) ==> r is Err,
        family is Unix && !nul_free(path@) ==> r == Err::<Vec<u8>, PathConvertError>(
            PathConvertError::Nul(first_nul(path@) as usize),
        ),
{
    match family {
        PathFamily::Windows => {
            if !is_utf8(path) {
                return Err(PathConvertError::Utf8Convert);
            }
            if !all_ascii(path) {
                return Err(PathConvertError::AsciiConvert);
            }
        },
        PathFamily::Unix => {},
    }
    match find_nul(path) {
        Some(pos) => {
            proof {
                lemma_first_nul_is_unique(path@, pos as int);
            }
            Err(PathConvertError::Nul(pos))
        },
        None => {
            let mut c: Vec<u8> = Vec::with_capacity(path.len());
            c.extend_from_slice(path);
            c.push(0);
            assert(c@ =~= path@.push(0));
            Ok(c)
        },
    }
}

} // verus!
