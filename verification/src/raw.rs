//! The raw binding layer: the opaque native archive type, the names of the
//! entry points the native library must export, and the loaded-library
//! handle with its all-or-nothing symbol check.
//!
//! Resolving a checked entry point into a callable function pointer — and
//! calling it — is inherently outside what can be verified and is left to
//! the unverified shell; what stands here is everything that can be decided
//! about the load itself.

use vstd::prelude::*;
use vstd::string::StringSliceAdditionalSpecFns;

use crate::cbytes;
use crate::errors::ImageError;

verus! {

/// Opaque native archive, the pointee of the handle the native open call
/// returns.  Never constructed or read on this side of the boundary: it is
/// only ever addressed through raw pointers by the unverified shell.
pub struct JImageFile {
    _private: (),
}

/// The location of a resource within an open archive, as the native find
/// entry point reports it: positive for a hit, non-positive for an error
/// code.
pub type JImageLocationRef = jni_sys::jlong;

/// The native library's conventional file name on Windows.
pub const NAME_WINDOWS: &'static str = "jimage.dll";

/// The native library's conventional file name on Unix.
pub const NAME_UNIX: &'static str = "libjimage.so";

/// Symbol name of the native open entry point.
pub const SYM_OPEN: &'static str = "JIMAGE_Open\0";

/// Symbol name of the native close entry point.
pub const SYM_CLOSE: &'static str = "JIMAGE_Close\0";

/// Symbol name of the native package-to-module entry point.
pub const SYM_PACKAGE_TO_MODULE: &'static str = "JIMAGE_PackageToModule\0";

/// Symbol name of the native find entry point.
pub const SYM_FIND_RESOURCE: &'static str = "JIMAGE_FindResource\0";

/// Symbol name of the native read entry point.
pub const SYM_GET_RESOURCE: &'static str = "JIMAGE_GetResource\0";

/// Symbol name of the native iteration entry point.
pub const SYM_RESOURCE_ITERATOR: &'static str = "JIMAGE_ResourceIterator\0";

/// Declares minidl's loaded-library handle, so that verified code can hold
/// one and hand it on.  The handle is opaque here.
#[verifier::external_type_specification]
#[verifier::external_body]
pub struct ExMinidlLibrary(minidl::Library);

/// Relies on `minidl::Library::load` (`LoadLibraryW` on Windows, `dlopen`
/// on Unix): it maps the named dynamic library into the process, forever,
/// or reports that the file could not be found or loaded.  Whether the load
/// succeeds depends on the machine, so only the error's kind is stated.
#[verifier::external_body]
fn load_native_library(path: &str) -> (r: Result<minidl::Library, ImageError>)
    ensures
        r matches Err(e) ==> e == ImageError::Load,
{
    match minidl::Library::load(path) {
        Ok(lib) => Ok(lib),
        Err(_) => Err(ImageError::Load),
    }
}

/// Relies on `minidl::Library::has_sym` (`GetProcAddress` on Windows,
/// `dlsym` on Unix): it reports whether the library exports the named
/// symbol.  The callee asserts that the name is one NUL-terminated byte
/// string, so exactly that is required here; which symbols exist depends on
/// the library loaded, so nothing is stated of the outcome.
#[verifier::external_body]
fn library_has_symbol(lib: &minidl::Library, name: &str) -> (present: bool)
    requires
        cbytes::is_c_string(name.spec_bytes()),
{
    lib.has_sym(name)
}

/// Report whether a symbol name is acceptable to the symbol lookup: one
/// terminating NUL byte and no NUL before it.
pub fn check_symbol_name(name: &str) -> (ok: bool)
    ensures
        ok == cbytes::is_c_string(name.spec_bytes()),
{
    let bytes: &[u8] = name.as_bytes();
    if bytes.len() == 0 {
        return false;
    }
    if bytes[bytes.len() - 1] != 0 {
        return false;
    }
    let mut i: usize = 0;
    while i < bytes.len() - 1
        invariant
            bytes@ == name.spec_bytes(),
            bytes@.len() > 0,
            bytes@[bytes@.len() - 1] == 0,
            0 <= i <= bytes@.len() - 1,
            forall|j: int| 0 <= j < i ==> bytes@[j] != 0,
        decreases bytes@.len() - 1 - i,
    {
        if bytes[i] == 0 {
            proof {
                assert(name.spec_bytes().drop_last()[i as int] == 0);
            }
            return false;
        }
        i = i + 1;
    }
    proof {
        assert forall|j: int| 0 <= j < name.spec_bytes().drop_last().len() implies name.spec_bytes().drop_last()[j]
            != 0 by {
            assert(name.spec_bytes().drop_last()[j] == bytes@[j]);
        }
    }
    true
}

/// The entry points the native library must export, in a fixed order:
/// open, close, package-to-module, find, read, iterate.
pub fn required_symbols() -> (names: Vec<&'static str>)
    ensures
        names@.len() == 6,
        names@[0]@ == SYM_OPEN@,
        names@[1]@ == SYM_CLOSE@,
        names@[2]@ == SYM_PACKAGE_TO_MODULE@,
        names@[3]@ == SYM_FIND_RESOURCE@,
        names@[4]@ == SYM_GET_RESOURCE@,
        names@[5]@ == SYM_RESOURCE_ITERATOR@,
{
    let mut names: Vec<&'static str> = Vec::new();
    names.push(SYM_OPEN);
    names.push(SYM_CLOSE);
    names.push(SYM_PACKAGE_TO_MODULE);
    names.push(SYM_FIND_RESOURCE);
    names.push(SYM_GET_RESOURCE);
    names.push(SYM_RESOURCE_ITERATOR);
    names
}

/// A loaded native library in which every required entry point has been
/// found.  No value of this type exists for a library in which any entry
/// point is missing: the whole check fails instead, so a partially usable
/// table can never be observed.
pub struct NativeLibrary {
    raw: minidl::Library,
}

impl NativeLibrary {
    /// The underlying loaded-library handle this value was checked from.
    pub closed spec fn spec_raw(&self) -> minidl::Library {
        self.raw
    }

    /// Load the dynamic library at `path` and check that every required
    /// entry point is exported.  Failure to load is reported before any
    /// archive-level operation could be attempted; one missing symbol fails
    /// the whole load.
    pub fn load(path: &str) -> (r: Result<NativeLibrary, ImageError>)
        ensures
            r matches Err(e) ==> (e == ImageError::Load || e == ImageError::NotFound),
    {
        match load_native_library(path) {
            Ok(raw) => NativeLibrary::from(raw),
            Err(e) => Err(e),
        }
    }

    /// Adopt an already loaded library, checking that every required entry
    /// point is exported — all or nothing: if any symbol is missing the
    /// whole resolution fails with a missing-symbol error.
    pub fn from(raw: minidl::Library) -> (r: Result<NativeLibrary, ImageError>)
        ensures
            r matches Err(e) ==> e == ImageError::NotFound,
    {
        let names = required_symbols();
        let mut i: usize = 0;
        while i < names.len()
            invariant
                0 <= i <= names@.len(),
            decreases names@.len() - i,
        {
            let name: &str = names[i];
            if !check_symbol_name(name) {
                // A name that the symbol lookup would reject can never be
                // found, so the table is as incomplete as with an absent
                // symbol.
                return Err(ImageError::NotFound);
            }
            if !library_has_symbol(&raw, name) {
                return Err(ImageError::NotFound);
            }
            i = i + 1;
        }
        Ok(NativeLibrary { raw })
    }

    /// The underlying loaded-library handle, for the unverified shell to
    /// resolve the checked entry points into callable form.
    pub fn raw(&self) -> (r: &minidl::Library)
        ensures
            *r == self.spec_raw(),
    {
        &self.raw
    }
}

} // verus!
