//! NUL-terminated byte strings: the encoding the native entry points expect
//! for paths and lookup keys, and the recombination of an enumerated entry's
//! package, name and extension into a slash-delimited lookup key.

use vstd::prelude::*;

use crate::errors::ImageError;

verus! {

/// The byte separating a package from a resource name inside a lookup key
/// (`/`).
pub const KEY_SLASH: u8 = 47;

/// The byte separating a resource name from its extension inside a lookup
/// key (`.`).
pub const KEY_DOT: u8 = 46;

/// A byte string is representable as a C string exactly when it holds no
/// NUL byte.
pub open spec fn c_representable(s: Seq<u8>) -> bool {
    forall|i: int| 0 <= i < s.len() ==> s[i] != 0
}

/// A well-formed NUL-terminated byte string: a single terminating NUL and
/// nothing NUL before it.
pub open spec fn is_c_string(s: Seq<u8>) -> bool {
    s.len() > 0 && s[s.len() - 1] == 0 && c_representable(s.drop_last())
}

/// The lookup key an enumerated entry's fields recombine into:
/// `package / name . extension`, NUL-terminated.
pub open spec fn spec_resource_key(package: Seq<u8>, name: Seq<u8>, extension: Seq<u8>) -> Seq<
    u8,
> {
    package + seq![KEY_SLASH] + name + seq![KEY_DOT] + extension + seq![0u8]
}

/// Report whether a byte slice holds no NUL, so that it can stand in a C
/// string.
pub fn check_c_representable(s: &[u8]) -> (ok: bool)
    ensures
        ok == c_representable(s@),
{
    let mut i: usize = 0;
    while i < s.len()
        invariant
            0 <= i <= s@.len(),
            forall|j: int| 0 <= j < i ==> s@[j] != 0,
        decreases s@.len() - i,
    {
        if s[i] == 0 {
            return false;
        }
        i = i + 1;
    }
    true
}

/// Encode a path or lookup key for the native calling convention by
/// appending the terminating NUL.  A byte string holding a NUL cannot be
/// represented and is rejected before any native call could see it.
pub fn make_c_string(s: &[u8]) -> (r: Result<Vec<u8>, ImageError>)
    ensures
        r is Ok <==> c_representable(s@),
        r matches Ok(v) ==> v@ == s@.push(0u8) && is_c_string(v@),
        r matches Err(e) ==> e == ImageError::InvalidInput,
{
    if !check_c_representable(s) {
        return Err(ImageError::InvalidInput);
    }
    let mut v: Vec<u8> = Vec::new();
    let mut i: usize = 0;
    while i < s.len()
        invariant
            0 <= i <= s@.len(),
            v@ == s@.subrange(0, i as int),
        decreases s@.len() - i,
    {
        v.push(s[i]);
        i = i + 1;
    }
    assert(v@ == s@);
    v.push(0u8);
    proof {
        assert(v@.drop_last() == s@);
    }
    Ok(v)
}

/// Recombine an enumerated entry's package, name and extension into the
/// NUL-terminated, slash-delimited key under which the entry can be looked
/// up again.  Fields holding a NUL cannot stand in a C string and are
/// rejected.
pub fn resource_key(package: &[u8], name: &[u8], extension: &[u8]) -> (r: Result<
    Vec<u8>,
    ImageError,
>)
    ensures
        r is Ok <==> c_representable(package@) && c_representable(name@) && c_representable(
            extension@,
        ),
        r matches Ok(v) ==> v@ == spec_resource_key(package@, name@, extension@),
        r matches Err(e) ==> e == ImageError::InvalidInput,
{
    if !check_c_representable(package) || !check_c_representable(name) || !check_c_representable(
        extension,
    ) {
        return Err(ImageError::InvalidInput);
    }
    let mut v: Vec<u8> = Vec::new();
    append_slice(&mut v, package);
    v.push(KEY_SLASH);
    append_slice(&mut v, name);
    v.push(KEY_DOT);
    append_slice(&mut v, extension);
    v.push(0u8);
    proof {
        assert(v@ =~= spec_resource_key(package@, name@, extension@));
    }
    Ok(v)
}

/// Where each byte of a lookup key comes from: the package, the slash, the
/// name, the dot, the extension, the terminating NUL.
pub proof fn lemma_resource_key_structure(p: Seq<u8>, n: Seq<u8>, e: Seq<u8>)
    ensures
        spec_resource_key(p, n, e).len() == p.len() + n.len() + e.len() + 3,
        forall|i: int| 0 <= i < p.len() ==> spec_resource_key(p, n, e)[i] == p[i],
        spec_resource_key(p, n, e)[p.len() as int] == KEY_SLASH,
        forall|i: int|
            0 <= i < n.len() ==> spec_resource_key(p, n, e)[p.len() + 1 + i] == n[i],
        spec_resource_key(p, n, e)[(p.len() + 1 + n.len()) as int] == KEY_DOT,
        forall|i: int|
            0 <= i < e.len() ==> spec_resource_key(p, n, e)[p.len() + n.len() + 2 + i] == e[i],
        spec_resource_key(p, n, e)[(p.len() + n.len() + e.len() + 2) as int] == 0,
{
}

/// Re-deriving a lookup key is unambiguous: two field triples that
/// recombine into the same key are the same triple, as long as the names
/// hold no slash and the extensions no dot.  A key derived from an
/// enumerated entry therefore names exactly that entry's package, name and
/// extension, and nothing else a lookup could confuse it with.
pub proof fn lemma_resource_key_injective(
    p1: Seq<u8>,
    n1: Seq<u8>,
    e1: Seq<u8>,
    p2: Seq<u8>,
    n2: Seq<u8>,
    e2: Seq<u8>,
)
    requires
        spec_resource_key(p1, n1, e1) == spec_resource_key(p2, n2, e2),
        forall|i: int| 0 <= i < n1.len() ==> n1[i] != KEY_SLASH,
        forall|i: int| 0 <= i < n2.len() ==> n2[i] != KEY_SLASH,
        forall|i: int| 0 <= i < e1.len() ==> e1[i] != KEY_DOT,
        forall|i: int| 0 <= i < e2.len() ==> e2[i] != KEY_DOT,
    ensures
        p1 == p2,
        n1 == n2,
        e1 == e2,
{
    let k = spec_resource_key(p1, n1, e1);
    lemma_resource_key_structure(p1, n1, e1);
    lemma_resource_key_structure(p2, n2, e2);
    let len = k.len() as int;

    // The extensions have the same length: otherwise the shorter one's dot
    // separator would land inside the longer one, which holds no dot.
    if e1.len() < e2.len() {
        let q = len - e1.len() - 2;
        assert(k[q] == KEY_DOT);
        assert(q == p2.len() + n2.len() + 2 + (e2.len() - e1.len() - 1));
        assert(e2[e2.len() - e1.len() - 1] == KEY_DOT);
        assert(false);
    }
    if e2.len() < e1.len() {
        let q = len - e2.len() - 2;
        assert(k[q] == KEY_DOT);
        assert(q == p1.len() + n1.len() + 2 + (e1.len() - e2.len() - 1));
        assert(e1[e1.len() - e2.len() - 1] == KEY_DOT);
        assert(false);
    }
    assert(e1.len() == e2.len());
    assert forall|i: int| 0 <= i < e1.len() implies e1[i] == e2[i] by {
        assert(k[p1.len() + n1.len() + 2 + i] == e1[i]);
        assert(k[p2.len() + n2.len() + 2 + i] == e2[i]);
    }
    assert(e1 =~= e2);

    // The names have the same length: otherwise the shorter one's slash
    // separator would land inside the longer one, which holds no slash.
    assert(p1.len() + n1.len() == p2.len() + n2.len());
    let d = (p1.len() + 1 + n1.len()) as int;
    if n1.len() < n2.len() {
        let q = d - n1.len() - 1;
        assert(k[q] == KEY_SLASH);
        assert(q == p2.len() + 1 + (n2.len() - n1.len() - 1));
        assert(n2[n2.len() - n1.len() - 1] == KEY_SLASH);
        assert(false);
    }
    if n2.len() < n1.len() {
        let q = d - n2.len() - 1;
        assert(k[q] == KEY_SLASH);
        assert(q == p1.len() + 1 + (n1.len() - n2.len() - 1));
        assert(n1[n1.len() - n2.len() - 1] == KEY_SLASH);
        assert(false);
    }
    assert(n1.len() == n2.len());
    assert(p1.len() == p2.len());
    assert forall|i: int| 0 <= i < n1.len() implies n1[i] == n2[i] by {
        assert(k[p1.len() + 1 + i] == n1[i]);
        assert(k[p2.len() + 1 + i] == n2[i]);
    }
    assert(n1 =~= n2);
    assert forall|i: int| 0 <= i < p1.len() implies p1[i] == p2[i] by {
        assert(k[i] == p1[i]);
        assert(k[i] == p2[i]);
    }
    assert(p1 =~= p2);
}

/// Push every byte of `s` onto the end of `v`.
fn append_slice(v: &mut Vec<u8>, s: &[u8])
    ensures
        final(v)@ == old(v)@ + s@,
{
    let mut i: usize = 0;
    while i < s.len()
        invariant
            0 <= i <= s@.len(),
            v@ == old(v)@ + s@.subrange(0, i as int),
        decreases s@.len() - i,
    {
        v.push(s[i]);
        i = i + 1;
    }
    assert(v@ =~= old(v)@ + s@);
}

} // verus!
