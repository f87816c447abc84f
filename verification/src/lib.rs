//! Safe, verified access layer for a module-archive ("jimage") container
//! format whose low-level parsing lives in a dynamically loaded native
//! library.
//!
//! The native entry points are raw C function pointers and can only be
//! resolved and invoked by an unverified shell around this crate.
//! Everything that can be decided without touching those pointers is
//! decided here, with a contract:
//!
//! * the translation of raw numeric error codes into a structured error
//!   taxonomy ([`errors`]);
//! * the encoding of paths and lookup keys as NUL-terminated byte strings,
//!   and the recombination of an enumerated entry into its lookup key
//!   ([`cbytes`]);
//! * the dynamic-library load and the all-or-nothing check of the required
//!   entry points ([`raw`]);
//! * the archive-handle lifecycle — open once, query while open, close
//!   exactly once — and the interpretation of every raw native result
//!   ([`archive`]);
//! * the enumeration protocol with early cancellation ([`visit`]).

pub mod archive;
pub mod cbytes;
pub mod errors;
pub mod raw;
pub mod visit;

pub use archive::File;
pub use archive::FileOp;
pub use archive::FileState;
pub use archive::Resource;
pub use errors::DataFault;
pub use errors::ImageError;
pub use raw::JImageFile;
pub use raw::NativeLibrary;
pub use visit::run_visit;
pub use visit::VisitParams;
pub use visit::VisitProgress;
pub use visit::VisitResult;
