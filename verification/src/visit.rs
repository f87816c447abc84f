//! The enumeration protocol: one record per archive entry, a
//! continue-or-cancel decision after each, and early termination the moment
//! a visitor cancels.
//!
//! The native library drives the iteration through a C callback; the
//! unverified trampoline around this crate reconstructs the visitor there
//! and reports each decision to a [`VisitProgress`], whose contract pins the
//! continuation signal handed back to the native iterator and the count of
//! records observed.

use vstd::prelude::*;
use vstd::string::StringSliceAdditionalSpecFns;
use vstd::utf8::decode_utf8;
use vstd::utf8::valid_utf8;

use crate::cbytes;
use crate::errors::DataFault;
use crate::errors::ImageError;

verus! {

/// Whether enumeration should go on after a record has been visited.
#[derive(Clone, Copy, Debug, PartialEq, Eq, PartialOrd, Ord, Hash, Structural)]
pub enum VisitResult {
    /// Stop the enumeration: no further record may be observed.
    Cancel,
    /// Visit the next record, if any entry is left.
    Continue,
}

/// Relies on `core::str::from_utf8`: it returns `Ok` exactly when the bytes
/// are valid UTF-8, and the returned string slice views those same bytes.
#[verifier::external_body]
fn bytes_as_str(v: &[u8]) -> (r: Option<&str>)
    ensures
        r is Some <==> valid_utf8(v@),
        r matches Some(s) ==> s@ == decode_utf8(v@) && s.spec_bytes() == v@,
{
    core::str::from_utf8(v).ok()
}

/// Decode one field of a record as text, or report the byte string that is
/// not validly decodable.
fn field_text(v: &[u8]) -> (r: Result<String, ImageError>)
    ensures
        r is Ok <==> valid_utf8(v@),
        r matches Ok(s) ==> s@ == decode_utf8(v@),
        r matches Err(e) ==> e == ImageError::InvalidData(DataFault::NotText),
{
    match bytes_as_str(v) {
        Some(s) => Ok(s.to_owned()),
        None => Err(ImageError::InvalidData(DataFault::NotText)),
    }
}

/// One enumerated entry: the five byte strings the native iterator reports
/// for it.  A record is transient — the iteration protocol produces one per
/// entry and nothing ties it to the archive once the callback returns.
pub struct VisitParams {
    module_name: Vec<u8>,
    version: Vec<u8>,
    package: Vec<u8>,
    name: Vec<u8>,
    extension: Vec<u8>,
}

impl VisitParams {
    /// The module-name field.
    pub closed spec fn spec_module_name(&self) -> Seq<u8> {
        self.module_name@
    }

    /// The version field.
    pub closed spec fn spec_version(&self) -> Seq<u8> {
        self.version@
    }

    /// The package field.
    pub closed spec fn spec_package(&self) -> Seq<u8> {
        self.package@
    }

    /// The name field.
    pub closed spec fn spec_name(&self) -> Seq<u8> {
        self.name@
    }

    /// The extension field.
    pub closed spec fn spec_extension(&self) -> Seq<u8> {
        self.extension@
    }

    /// Assemble the record for one callback invocation from the five raw
    /// byte strings.
    pub fn new(
        module_name: Vec<u8>,
        version: Vec<u8>,
        package: Vec<u8>,
        name: Vec<u8>,
        extension: Vec<u8>,
    ) -> (p: VisitParams)
        ensures
            p.spec_module_name() == module_name@,
            p.spec_version() == version@,
            p.spec_package() == package@,
            p.spec_name() == name@,
            p.spec_extension() == extension@,
    {
        VisitParams { module_name, version, package, name, extension }
    }

    /// The module name as raw bytes (e.g. `java.base`).
    pub fn module_name_bytes(&self) -> (r: &Vec<u8>)
        ensures
            r@ == self.spec_module_name(),
    {
        &self.module_name
    }

    /// The module version as raw bytes (e.g. `9.0`).
    pub fn version_bytes(&self) -> (r: &Vec<u8>)
        ensures
            r@ == self.spec_version(),
    {
        &self.version
    }

    /// The package as raw bytes (e.g. `java/lang`).
    pub fn package_bytes(&self) -> (r: &Vec<u8>)
        ensures
            r@ == self.spec_package(),
    {
        &self.package
    }

    /// The name as raw bytes (e.g. `Object`).
    pub fn name_bytes(&self) -> (r: &Vec<u8>)
        ensures
            r@ == self.spec_name(),
    {
        &self.name
    }

    /// The extension as raw bytes (e.g. `class`).
    pub fn extension_bytes(&self) -> (r: &Vec<u8>)
        ensures
            r@ == self.spec_extension(),
    {
        &self.extension
    }

    /// The module name as text, or the not-decodable error.
    pub fn module_name(&self) -> (r: Result<String, ImageError>)
        ensures
            r is Ok <==> valid_utf8(self.spec_module_name()),
            r matches Ok(s) ==> s@ == decode_utf8(self.spec_module_name()),
            r matches Err(e) ==> e == ImageError::InvalidData(DataFault::NotText),
    {
        field_text(self.module_name.as_slice())
    }

    /// The module version as text, or the not-decodable error.
    pub fn version(&self) -> (r: Result<String, ImageError>)
        ensures
            r is Ok <==> valid_utf8(self.spec_version()),
            r matches Ok(s) ==> s@ == decode_utf8(self.spec_version()),
            r matches Err(e) ==> e == ImageError::InvalidData(DataFault::NotText),
    {
        field_text(self.version.as_slice())
    }

    /// The package as text, or the not-decodable error.
    pub fn package(&self) -> (r: Result<String, ImageError>)
        ensures
            r is Ok <==> valid_utf8(self.spec_package()),
            r matches Ok(s) ==> s@ == decode_utf8(self.spec_package()),
            r matches Err(e) ==> e == ImageError::InvalidData(DataFault::NotText),
    {
        field_text(self.package.as_slice())
    }

    /// The name as text, or the not-decodable error.
    pub fn name(&self) -> (r: Result<String, ImageError>)
        ensures
            r is Ok <==> valid_utf8(self.spec_name()),
            r matches Ok(s) ==> s@ == decode_utf8(self.spec_name()),
            r matches Err(e) ==> e == ImageError::InvalidData(DataFault::NotText),
    {
        field_text(self.name.as_slice())
    }

    /// The extension as text, or the not-decodable error.
    pub fn extension(&self) -> (r: Result<String, ImageError>)
        ensures
            r is Ok <==> valid_utf8(self.spec_extension()),
            r matches Ok(s) ==> s@ == decode_utf8(self.spec_extension()),
            r matches Err(e) ==> e == ImageError::InvalidData(DataFault::NotText),
    {
        field_text(self.extension.as_slice())
    }

    /// Re-derive the lookup key under which this record's resource can be
    /// found again: `package / name . extension`, NUL-terminated.
    pub fn resource_key(&self) -> (r: Result<Vec<u8>, ImageError>)
        ensures
            r is Ok <==> cbytes::c_representable(self.spec_package())
                && cbytes::c_representable(self.spec_name()) && cbytes::c_representable(
                self.spec_extension(),
            ),
            r matches Ok(v) ==> v@ == cbytes::spec_resource_key(
                self.spec_package(),
                self.spec_name(),
                self.spec_extension(),
            ),
            r matches Err(e) ==> e == ImageError::InvalidInput,
    {
        cbytes::resource_key(
            self.package.as_slice(),
            self.name.as_slice(),
            self.extension.as_slice(),
        )
    }
}

/// How many records a conforming iterator lets a visitor observe, given the
/// decisions the visitor would return one after another: every record up to
/// and including the first cancelled one, and every record if no decision
/// cancels.
pub open spec fn spec_visit_count(decisions: Seq<VisitResult>) -> nat
    decreases decisions.len(),
{
    if decisions.len() == 0 {
        0
    } else if decisions[0] is Cancel {
        1
    } else {
        1 + spec_visit_count(decisions.drop_first())
    }
}

/// A visitor that cancels on its first invocation observes exactly one
/// record, never more.
pub proof fn lemma_cancel_first_observes_one(decisions: Seq<VisitResult>)
    requires
        decisions.len() > 0,
        decisions[0] is Cancel,
    ensures
        spec_visit_count(decisions) == 1,
{
}

/// Bounds of the protocol: never more records than entries, every entry if
/// nothing cancels.
pub proof fn lemma_visit_count_bounds(decisions: Seq<VisitResult>)
    ensures
        spec_visit_count(decisions) <= decisions.len(),
        (forall|i: int| 0 <= i < decisions.len() ==> decisions[i] is Continue)
            ==> spec_visit_count(decisions) == decisions.len(),
    decreases decisions.len(),
{
    if decisions.len() > 0 {
        lemma_visit_count_bounds(decisions.drop_first());
    }
}

/// A prefix of continued decisions is fully observed, and what follows it
/// is observed as if the enumeration had started there.
proof fn lemma_visit_count_continue_prefix(decisions: Seq<VisitResult>, i: int)
    requires
        0 <= i <= decisions.len(),
        forall|j: int| 0 <= j < i ==> decisions[j] is Continue,
    ensures
        spec_visit_count(decisions) == i + spec_visit_count(decisions.skip(i)),
    decreases i,
{
    if i == 0 {
        assert(decisions.skip(0) =~= decisions);
    } else {
        lemma_visit_count_continue_prefix(decisions.drop_first(), i - 1);
        assert(decisions.drop_first().skip(i - 1) =~= decisions.skip(i));
    }
}

/// The state of one enumeration in progress: how many records the visitor
/// has observed, and whether it has cancelled.
///
/// The unverified trampoline owns one of these per enumeration, reports
/// every decision to [`VisitProgress::record`], and hands the returned
/// continuation signal back to the native iterator.
pub struct VisitProgress {
    seen: u64,
    cancelled: bool,
}

impl VisitProgress {
    /// How many records have been observed.
    pub closed spec fn spec_seen(&self) -> u64 {
        self.seen
    }

    /// Whether the visitor has cancelled the enumeration.
    pub closed spec fn spec_cancelled(&self) -> bool {
        self.cancelled
    }

    /// The state before the first record: nothing observed, nothing
    /// cancelled.
    pub fn new() -> (p: VisitProgress)
        ensures
            p.spec_seen() == 0,
            !p.spec_cancelled(),
    {
        VisitProgress { seen: 0, cancelled: false }
    }

    /// How many records have been observed.
    pub fn seen(&self) -> (n: u64)
        ensures
            n == self.spec_seen(),
    {
        self.seen
    }

    /// Whether the visitor has cancelled the enumeration.
    pub fn cancelled(&self) -> (c: bool)
        ensures
            c == self.spec_cancelled(),
    {
        self.cancelled
    }

    /// Count one observed record and translate the visitor's decision into
    /// the continuation signal the native iterator expects: `true` goes on,
    /// `false` stops.  Cancelling is not an error, merely early termination.
    pub fn record(&mut self, decision: VisitResult) -> (go_on: bool)
        requires
            !old(self).spec_cancelled(),
            old(self).spec_seen() < u64::MAX,
        ensures
            final(self).spec_seen() == old(self).spec_seen() + 1,
            final(self).spec_cancelled() == (decision is Cancel),
            go_on == (decision is Continue),
    {
        self.seen = self.seen + 1;
        match decision {
            VisitResult::Continue => true,
            VisitResult::Cancel => {
                self.cancelled = true;
                false
            },
        }
    }
}

/// Run the enumeration protocol over a known sequence of decisions and
/// return how many records the visitor observes.  This is the conforming
/// iterator's contract in executable form: it stops at the first
/// cancellation and otherwise visits everything.
pub fn run_visit(decisions: &Vec<VisitResult>) -> (n: usize)
    ensures
        n as nat == spec_visit_count(decisions@),
{
    let mut progress = VisitProgress::new();
    let mut i: usize = 0;
    let mut go_on = true;
    while go_on && i < decisions.len()
        invariant
            0 <= i <= decisions@.len(),
            go_on ==> forall|j: int| 0 <= j < i ==> decisions@[j] is Continue,
            !go_on ==> i >= 1 && decisions@[i - 1] is Cancel && (forall|j: int|
                0 <= j < i - 1 ==> decisions@[j] is Continue),
            progress.spec_seen() == i,
            progress.spec_cancelled() == !go_on,
        decreases decisions@.len() - i + if go_on {
            1int
        } else {
            0int
        },
    {
        let decision = decisions[i];
        go_on = progress.record(decision);
        i = i + 1;
    }
    proof {
        if go_on {
            lemma_visit_count_continue_prefix(decisions@, i as int);
            assert(decisions@.skip(i as int) =~= Seq::<VisitResult>::empty());
        } else {
            lemma_visit_count_continue_prefix(decisions@, i - 1);
            assert(decisions@.skip(i - 1)[0] is Cancel);
        }
    }
    i
}

} // verus!
