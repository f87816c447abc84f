//! The archive-handle lifecycle and the interpretation of every raw result
//! the native entry points can report.
//!
//! The native calls themselves happen in an unverified shell; each one hands
//! its raw outcome (an opaque pointer's address, a numeric code, an
//! out-parameter) to the functions here, which decide — with a contract —
//! what the outcome means and how the handle's state moves.

use vstd::prelude::*;

use crate::errors::ImageError;
use crate::errors::spec_error_from_code;
use crate::raw::JImageLocationRef;
use jni_sys::jint;
use jni_sys::jlong;

verus! {

/// The abstract state of one archive handle: the address of the opaque
/// native pointer, whether the handle is still open for queries, and how
/// many native close calls it has directed.
pub struct FileState {
    /// The address of the opaque native pointer.
    pub handle: usize,
    /// Whether the handle is still open for queries.
    pub open: bool,
    /// How many native close calls have been directed so far.
    pub closes: nat,
}

impl FileState {
    /// The handle invariant: the pointer is never null while the handle
    /// exists, and a close is directed exactly on the transition out of the
    /// open state — so never twice, and never while still open.
    pub open spec fn wf(self) -> bool {
        self.handle != 0 && self.closes == if self.open {
            0int
        } else {
            1int
        }
    }
}

/// One open archive.
///
/// A `File` comes into being only through a successful open, holding the
/// address of the non-null opaque pointer the native open call returned.
/// Queries demand that the handle is still open, and the close decision can
/// be taken exactly once.
pub struct File {
    handle: usize,
    open: bool,
    closes: u64,
}

impl View for File {
    type V = FileState;

    closed spec fn view(&self) -> FileState {
        FileState { handle: self.handle, open: self.open, closes: self.closes as nat }
    }
}

impl File {
    /// Decide the outcome of the native open call: a null pointer means the
    /// reported code, translated through the error taxonomy; a non-null
    /// pointer becomes a fresh, open, well-formed handle on which no close
    /// has been directed.
    pub fn open(raw_handle: usize, err_code: jint) -> (r: Result<File, ImageError>)
        ensures
            raw_handle == 0 ==> r == Err::<File, ImageError>(spec_error_from_code(err_code as i64)),
            raw_handle != 0 ==> (r matches Ok(f) && f@.wf() && f@.open && f@.handle == raw_handle
                && f@.closes == 0),
    {
        if raw_handle == 0 {
            Err(crate::errors::error_from_code(err_code as i64))
        } else {
            Ok(File { handle: raw_handle, open: true, closes: 0 })
        }
    }

    /// Whether the handle is still open for queries.
    pub fn is_open(&self) -> (b: bool)
        ensures
            b == self@.open,
    {
        self.open
    }

    /// The address to hand to a native query.  Only an open handle has one:
    /// this is what keeps every query before the close.
    pub fn handle(&self) -> (h: usize)
        requires
            self@.wf(),
            self@.open,
        ensures
            h == self@.handle,
            h != 0,
    {
        self.handle
    }

    /// Decide the close step.  On an open handle the transition directs the
    /// one and only native close; on a handle already closed it directs
    /// nothing, so a repeated release can never double-close.
    pub fn close(&mut self) -> (issue_close: bool)
        requires
            old(self)@.wf(),
        ensures
            final(self)@.wf(),
            !final(self)@.open,
            final(self)@.handle == old(self)@.handle,
            issue_close == old(self)@.open,
            final(self)@.closes == 1,
            final(self)@ == spec_apply_op(old(self)@, FileOp::Release),
    {
        if self.open {
            self.open = false;
            self.closes = 1;
            true
        } else {
            false
        }
    }

    /// Decide the outcome of the native package-to-module query: a null
    /// result must become a missing-package error, never an empty string; a
    /// non-null result is the owning module's name, passed through
    /// unchanged.
    pub fn package_to_module(&self, raw: Option<Vec<u8>>) -> (r: Result<Vec<u8>, ImageError>)
        requires
            self@.wf(),
            self@.open,
        ensures
            r == spec_package_to_module(raw),
    {
        match raw {
            Some(module) => Ok(module),
            None => Err(ImageError::NotFound),
        }
    }

    /// Decide the outcome of the native find call: a non-positive location
    /// is the reported code, translated through the error taxonomy; a
    /// positive location becomes a resource paired with this very handle
    /// and carrying the size the out-parameter reported.
    pub fn find_resource(&self, raw_location: JImageLocationRef, raw_size: jlong) -> (r: Result<
        Resource,
        ImageError,
    >)
        requires
            self@.wf(),
            self@.open,
        ensures
            raw_location <= 0 ==> r == Err::<Resource, ImageError>(
                spec_error_from_code(raw_location),
            ),
            raw_location > 0 ==> (r matches Ok(res) && res.wf() && res.spec_location()
                == raw_location && res.spec_size() == raw_size as u64 && res.spec_file_handle()
                == self@.handle),
    {
        if raw_location <= 0 {
            Err(crate::errors::error_from_code(raw_location))
        } else {
            Ok(Resource { file_handle: self.handle, location: raw_location, size: raw_size as u64 })
        }
    }
}

/// What the package-to-module decision returns for each raw outcome.
pub open spec fn spec_package_to_module(raw: Option<Vec<u8>>) -> Result<Vec<u8>, ImageError> {
    match raw {
        Some(module) => Ok(module),
        None => Err(ImageError::NotFound),
    }
}

/// Mapping a package to its module is idempotent at this layer: the
/// decision is a function of the raw outcome alone, so two queries whose
/// raw outcomes agree return the same result.  That the native library
/// reports the same raw outcome twice for one key on one open archive is
/// the documented trust assumption about the wrapped implementation.
pub proof fn lemma_package_to_module_idempotent(
    raw1: Option<Vec<u8>>,
    raw2: Option<Vec<u8>>,
    r1: Result<Vec<u8>, ImageError>,
    r2: Result<Vec<u8>, ImageError>,
)
    requires
        raw1 == raw2,
        r1 == spec_package_to_module(raw1),
        r2 == spec_package_to_module(raw2),
    ensures
        r1 == r2,
{
}

/// The location and recorded size of one resource inside one open archive.
///
/// A location token is meaningless across archives, so the resource records
/// the handle it was found through; its invariant keeps the location
/// positive, as only a positive native result ever constructs one.
pub struct Resource {
    file_handle: usize,
    location: i64,
    size: u64,
}

impl Resource {
    /// The address of the handle this resource was found through.
    pub closed spec fn spec_file_handle(&self) -> usize {
        self.file_handle
    }

    /// The opaque location token.
    pub closed spec fn spec_location(&self) -> i64 {
        self.location
    }

    /// The byte size the find call reported.
    pub closed spec fn spec_size(&self) -> u64 {
        self.size
    }

    /// A resource always pairs a positive location with the non-null handle
    /// that produced it.
    pub open spec fn wf(&self) -> bool {
        self.spec_location() > 0 && self.spec_file_handle() != 0
    }

    /// How large this resource is in bytes, as recorded at lookup.
    pub fn size(&self) -> (s: u64)
        ensures
            s == self.spec_size(),
    {
        self.size
    }

    /// The location token to hand to the native read call.
    pub fn location(&self) -> (l: i64)
        requires
            self.wf(),
        ensures
            l == self.spec_location(),
            l > 0,
    {
        self.location
    }

    /// The handle address this resource is paired with, for checking that a
    /// read goes against the archive that produced the token.
    pub fn file_handle(&self) -> (h: usize)
        requires
            self.wf(),
        ensures
            h == self.spec_file_handle(),
            h != 0,
    {
        self.file_handle
    }

    /// Decide the outcome of the native read call: a negative count is the
    /// reported code, translated through the error taxonomy; any other
    /// count is the number of bytes written, surfaced to the caller
    /// unchanged.
    pub fn get(&self, raw_count: jlong) -> (r: Result<u64, ImageError>)
        requires
            self.wf(),
        ensures
            raw_count < 0 ==> r == Err::<u64, ImageError>(spec_error_from_code(raw_count)),
            raw_count >= 0 ==> r == Ok::<u64, ImageError>(raw_count as u64),
    {
        if raw_count < 0 {
            Err(crate::errors::error_from_code(raw_count))
        } else {
            Ok(raw_count as u64)
        }
    }
}

/// The byte count to request from the native read call for a destination
/// buffer of the given capacity: the capacity, clamped to what the signed
/// native length parameter can carry.  A zero-length buffer requests zero
/// bytes.
pub fn read_len(buffer_len: usize) -> (n: jlong)
    ensures
        n >= 0,
        n as int == if buffer_len as int <= i64::MAX as int {
            buffer_len as int
        } else {
            i64::MAX as int
        },
        buffer_len == 0 ==> n == 0,
{
    if (buffer_len as u64) <= (i64::MAX as u64) {
        buffer_len as i64
    } else {
        i64::MAX
    }
}

/// The events of a handle's life after a successful open: queries, and the
/// release of the handle.
#[derive(Clone, Copy, Debug, PartialEq, Eq, Structural, Hash)]
pub enum FileOp {
    /// Any of the query operations: package-to-module, find, read,
    /// enumeration.
    Query,
    /// The last reference to the handle goes away.
    Release,
}

/// How one event moves a handle's state: queries leave it unchanged, and a
/// release closes it, directing the one native close if it was still open.
pub open spec fn spec_apply_op(s: FileState, op: FileOp) -> FileState {
    match op {
        FileOp::Query => s,
        FileOp::Release => FileState {
            open: false,
            closes: if s.open {
                s.closes + 1
            } else {
                s.closes
            },
            ..s
        },
    }
}

/// The handle state after a whole sequence of events.
pub open spec fn spec_apply_ops(s: FileState, ops: Seq<FileOp>) -> FileState
    decreases ops.len(),
{
    if ops.len() == 0 {
        s
    } else {
        spec_apply_ops(spec_apply_op(s, ops[0]), ops.drop_first())
    }
}

/// A sequence of events respects the handle's lifetime when every query
/// happens while the handle is still open.
pub open spec fn spec_ops_valid(s: FileState, ops: Seq<FileOp>) -> bool
    decreases ops.len(),
{
    if ops.len() == 0 {
        true
    } else {
        (ops[0] is Query ==> s.open) && spec_ops_valid(spec_apply_op(s, ops[0]), ops.drop_first())
    }
}

/// How many native close calls a sequence of events directs.
pub open spec fn spec_closes_issued_by(s: FileState, ops: Seq<FileOp>) -> nat
    decreases ops.len(),
{
    if ops.len() == 0 {
        0
    } else {
        (if ops[0] is Release && s.open {
            1nat
        } else {
            0nat
        }) + spec_closes_issued_by(spec_apply_op(s, ops[0]), ops.drop_first())
    }
}

/// A handle that is already closed never directs another native close,
/// whatever happens to it afterwards.
pub proof fn lemma_closed_no_more_closes(s: FileState, ops: Seq<FileOp>)
    requires
        !s.open,
    ensures
        spec_closes_issued_by(s, ops) == 0,
    decreases ops.len(),
{
    if ops.len() > 0 {
        lemma_closed_no_more_closes(spec_apply_op(s, ops[0]), ops.drop_first());
    }
}

/// Exactly one close per successful open: over any sequence of events on a
/// freshly opened handle, one native close is directed if the handle is
/// ever released, and none before that — never zero for a released handle,
/// never two for any.
pub proof fn lemma_exactly_one_close(s: FileState, ops: Seq<FileOp>)
    requires
        s.open,
    ensures
        spec_closes_issued_by(s, ops) == if ops.contains(FileOp::Release) {
            1nat
        } else {
            0nat
        },
    decreases ops.len(),
{
    if ops.len() > 0 {
        let rest = ops.drop_first();
        if ops[0] is Release {
            lemma_closed_no_more_closes(spec_apply_op(s, ops[0]), rest);
            assert(ops.contains(FileOp::Release)) by {
                assert(ops[0] == FileOp::Release);
            }
        } else {
            lemma_exactly_one_close(spec_apply_op(s, ops[0]), rest);
            assert(ops.contains(FileOp::Release) <==> rest.contains(FileOp::Release)) by {
                if ops.contains(FileOp::Release) {
                    let i = choose|i: int| 0 <= i < ops.len() && ops[i] == FileOp::Release;
                    assert(i != 0);
                    assert(rest[i - 1] == FileOp::Release);
                }
                if rest.contains(FileOp::Release) {
                    let i = choose|i: int| 0 <= i < rest.len() && rest[i] == FileOp::Release;
                    assert(ops[i + 1] == FileOp::Release);
                }
            }
        }
    }
}

/// Until the release, the handle stays exactly as the open produced it:
/// every query in a release-free event sequence sees the same live, open
/// handle.
pub proof fn lemma_valid_until_release(s: FileState, ops: Seq<FileOp>)
    requires
        !ops.contains(FileOp::Release),
    ensures
        spec_apply_ops(s, ops) == s,
    decreases ops.len(),
{
    if ops.len() > 0 {
        let rest = ops.drop_first();
        assert(ops[0] != FileOp::Release) by {
            if ops[0] == FileOp::Release {
                assert(ops.contains(FileOp::Release));
            }
        }
        assert(!rest.contains(FileOp::Release)) by {
            if rest.contains(FileOp::Release) {
                let i = choose|i: int| 0 <= i < rest.len() && rest[i] == FileOp::Release;
                assert(ops[i + 1] == FileOp::Release);
            }
        }
        lemma_valid_until_release(s, rest);
        assert(spec_apply_op(s, ops[0]) == s);
    }
}

/// On a handle that is already closed, a lifetime-respecting event sequence
/// holds no query at all.
pub proof fn lemma_valid_closed_no_query(s: FileState, ops: Seq<FileOp>)
    requires
        !s.open,
        spec_ops_valid(s, ops),
    ensures
        forall|j: int| 0 <= j < ops.len() ==> !(ops[j] is Query),
    decreases ops.len(),
{
    if ops.len() > 0 {
        let s1 = spec_apply_op(s, ops[0]);
        assert(!s1.open);
        lemma_valid_closed_no_query(s1, ops.drop_first());
        assert forall|j: int| 0 <= j < ops.len() implies !(ops[j] is Query) by {
            if j > 0 {
                assert(ops.drop_first()[j - 1] == ops[j]);
            }
        }
    }
}

/// In a lifetime-respecting event sequence, no query ever follows the
/// release: the handle is never used after it is closed.
pub proof fn lemma_no_query_after_release(s: FileState, ops: Seq<FileOp>, i: int, j: int)
    requires
        spec_ops_valid(s, ops),
        0 <= i < j < ops.len(),
        ops[i] is Release,
    ensures
        !(ops[j] is Query),
    decreases ops.len(),
{
    let s1 = spec_apply_op(s, ops[0]);
    let rest = ops.drop_first();
    if i == 0 {
        assert(!s1.open);
        lemma_valid_closed_no_query(s1, rest);
        assert(rest[j - 1] == ops[j]);
    } else {
        assert(rest[i - 1] == ops[i]);
        lemma_no_query_after_release(s1, rest, i - 1, j - 1);
        assert(rest[j - 1] == ops[j]);
    }
}

} // verus!
