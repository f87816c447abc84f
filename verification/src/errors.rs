//! The structured error taxonomy, and the total mapping from the raw
//! numeric codes reported by the native library into it.

use jni_sys::jint;
use jni_sys::jlong;
use vstd::prelude::*;

verus! {

/// Raw code reported by the native layer for a missing entry, package or
/// resource.
pub const JIMAGE_NOT_FOUND: jint = 0;

/// Raw code reported by the native layer for an archive whose magic number
/// is wrong.
pub const JIMAGE_BAD_MAGIC: jint = -1;

/// Raw code reported by the native layer for an archive of an unsupported
/// format version.
pub const JIMAGE_BAD_VERSION: jint = -2;

/// Raw code reported by the native layer for an archive whose contents are
/// inconsistent.
pub const JIMAGE_CORRUPTED: jint = -3;

/// The ways in which an archive's data can be unusable.
#[derive(Clone, Copy, Debug, PartialEq, Eq, Structural, Hash)]
pub enum DataFault {
    /// The archive's magic number is wrong.
    BadMagic,
    /// The archive's format version is unsupported.
    BadVersion,
    /// The archive's contents are inconsistent.
    Corrupted,
    /// A string handed back by the native layer is not valid text.
    NotText,
}

/// Every failure this library reports.
///
/// Raw codes never leak past this layer: each one is translated at the
/// call site, and a code outside the four defined constants is preserved
/// bit-exact in [`ImageError::Unrecognized`] for diagnostics.
#[derive(Clone, Copy, Debug, PartialEq, Eq, Structural, Hash)]
pub enum ImageError {
    /// A path or key cannot be represented as a NUL-terminated byte string.
    InvalidInput,
    /// A symbol, archive entry or package mapping is missing.
    NotFound,
    /// The archive's data is unusable, in the recorded way.
    InvalidData(DataFault),
    /// A native error code outside the defined constants, kept verbatim.
    Unrecognized(i64),
    /// The dynamic library could not be loaded.
    Load,
}

/// What each raw native code means.  Total: every `i64` is mapped, and the
/// four defined codes are mapped to their own kinds.
pub open spec fn spec_error_from_code(code: i64) -> ImageError {
    if code == JIMAGE_NOT_FOUND as i64 {
        ImageError::NotFound
    } else if code == JIMAGE_BAD_MAGIC as i64 {
        ImageError::InvalidData(DataFault::BadMagic)
    } else if code == JIMAGE_BAD_VERSION as i64 {
        ImageError::InvalidData(DataFault::BadVersion)
    } else if code == JIMAGE_CORRUPTED as i64 {
        ImageError::InvalidData(DataFault::Corrupted)
    } else {
        ImageError::Unrecognized(code)
    }
}

/// Translate a raw native error code into the structured taxonomy.
pub fn error_from_code(code: jlong) -> (e: ImageError)
    ensures
        e == spec_error_from_code(code),
{
    if code == JIMAGE_NOT_FOUND as i64 {
        ImageError::NotFound
    } else if code == JIMAGE_BAD_MAGIC as i64 {
        ImageError::InvalidData(DataFault::BadMagic)
    } else if code == JIMAGE_BAD_VERSION as i64 {
        ImageError::InvalidData(DataFault::BadVersion)
    } else if code == JIMAGE_CORRUPTED as i64 {
        ImageError::InvalidData(DataFault::Corrupted)
    } else {
        ImageError::Unrecognized(code)
    }
}

/// The code mapping is total and exact: each of the four defined codes goes
/// to its own kind, and every other value is preserved verbatim inside
/// `Unrecognized`.
pub proof fn lemma_error_code_mapping_total_exact()
    ensures
        spec_error_from_code(0i64) == ImageError::NotFound,
        spec_error_from_code(-1i64) == ImageError::InvalidData(DataFault::BadMagic),
        spec_error_from_code(-2i64) == ImageError::InvalidData(DataFault::BadVersion),
        spec_error_from_code(-3i64) == ImageError::InvalidData(DataFault::Corrupted),
        forall|code: i64|
            code != 0 && code != -1 && code != -2 && code != -3 ==> spec_error_from_code(code)
                == ImageError::Unrecognized(code),
{
}

} // verus!
