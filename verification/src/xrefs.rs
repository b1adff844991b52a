//! Cross-references: provenance records linking an entity to the external
//! system that asserted it.
//!
//! A cross-reference set is additive and never replaced: merging unions the
//! incoming references into the existing set, and merging the same reference
//! twice leaves the set unchanged.

use vstd::prelude::*;

verus! {

/// Discriminates which class of external system asserted a fact.
pub enum XrefKind {
    /// A codebase tracked by the system.
    Codebase,
    /// A product tracked by the system.
    Product,
    /// An external system named by its discriminator (e.g. "snyk").
    External(String),
}

/// Mathematical value of an [`XrefKind`].
pub ghost enum XrefKindView {
    Codebase,
    Product,
    External(Seq<char>),
}

impl View for XrefKind {
    type V = XrefKindView;

    open spec fn view(&self) -> XrefKindView {
        match self {
            XrefKind::Codebase => XrefKindView::Codebase,
            XrefKind::Product => XrefKindView::Product,
            XrefKind::External(s) => XrefKindView::External(s@),
        }
    }
}

impl Clone for XrefKind {
    fn clone(&self) -> (r: Self)
        ensures
            r@ == self@,
    {
        match self {
            XrefKind::Codebase => XrefKind::Codebase,
            XrefKind::Product => XrefKind::Product,
            XrefKind::External(s) => XrefKind::External(s.clone()),
        }
    }
}

/// One provenance record: the kind of external system together with the
/// key/value identifiers that system supplied (organization id, project id,
/// repository name, and the like).
pub struct Xref {
    /// The class of external system asserting the fact.
    pub kind: XrefKind,
    /// Arbitrary key/value identifiers supplied by the originating system.
    pub identifiers: Vec<(String, String)>,
}

/// Mathematical value of an [`Xref`].
#[verifier::ext_equal]
pub ghost struct XrefView {
    pub kind: XrefKindView,
    pub identifiers: Seq<(Seq<char>, Seq<char>)>,
}

impl View for Xref {
    type V = XrefView;

    open spec fn view(&self) -> XrefView {
        XrefView { kind: self.kind@, identifiers: self.identifiers.deep_view() }
    }
}

/// The mathematical value of a vector of cross-references.
pub open spec fn xref_seq_view(s: Seq<Xref>) -> Seq<XrefView> {
    s.map_values(|x: Xref| x@)
}

/// Adds one cross-reference to a set unless an equal one is already present.
pub open spec fn xref_union_one(a: Seq<XrefView>, x: XrefView) -> Seq<XrefView> {
    if a.contains(x) {
        a
    } else {
        a.push(x)
    }
}

/// Unions the cross-references of `b` into `a`, in order, without
/// introducing duplicates of references already present.
pub open spec fn xref_union(a: Seq<XrefView>, b: Seq<XrefView>) -> Seq<XrefView>
    decreases b.len(),
{
    if b.len() == 0 {
        a
    } else {
        xref_union_one(xref_union(a, b.drop_last()), b.last())
    }
}

/// Cross-reference merging is additive: the union holds exactly the
/// references of both operands.
pub proof fn lemma_xref_union_contains(a: Seq<XrefView>, b: Seq<XrefView>, x: XrefView)
    ensures
        xref_union(a, b).contains(x) <==> (a.contains(x) || b.contains(x)),
    decreases b.len(),
{
    if b.len() == 0 {
    } else {
        let bp = b.drop_last();
        lemma_xref_union_contains(a, bp, x);
        let u = xref_union(a, bp);
        if b.contains(x) {
            let i = choose|i: int| 0 <= i < b.len() && b[i] == x;
            if i < b.len() - 1 {
                assert(bp[i] == x);
            }
        }
        if bp.contains(x) {
            let i = choose|i: int| 0 <= i < bp.len() && bp[i] == x;
            assert(b[i] == x);
        }
        if !u.contains(b.last()) {
            assert(u.push(b.last())[u.len() as int] == b.last());
            if u.contains(x) {
                let i = choose|i: int| 0 <= i < u.len() && u[i] == x;
                assert(u.push(b.last())[i] == x);
            }
        }
        assert(b[b.len() - 1] == b.last());
    }
}

/// Unioning references that are all already present changes nothing.
pub proof fn lemma_xref_union_absorbed(a: Seq<XrefView>, b: Seq<XrefView>)
    requires
        forall|x: XrefView| b.contains(x) ==> a.contains(x),
    ensures
        xref_union(a, b) == a,
    decreases b.len(),
{
    if b.len() == 0 {
    } else {
        let bp = b.drop_last();
        assert forall|x: XrefView| bp.contains(x) implies a.contains(x) by {
            let i = choose|i: int| 0 <= i < bp.len() && bp[i] == x;
            assert(b[i] == x);
        };
        lemma_xref_union_absorbed(a, bp);
        assert(b[b.len() - 1] == b.last());
        assert(a.contains(b.last()));
    }
}

/// Cross-reference merging is idempotent: merging a set into itself
/// yields the same set.
pub proof fn lemma_xref_union_idempotent(a: Seq<XrefView>)
    ensures
        xref_union(a, a) == a,
{
    lemma_xref_union_absorbed(a, a);
}

impl Clone for Xref {
    fn clone(&self) -> (r: Self)
        ensures
            r@ == self@,
    {
        let r = Xref { kind: self.kind.clone(), identifiers: clone_identifiers(&self.identifiers) };
        proof {
            assert(r@ =~= self@);
        }
        r
    }
}

/// Copies a list of key/value identifiers, preserving its mathematical value.
fn clone_identifiers(v: &Vec<(String, String)>) -> (r: Vec<(String, String)>)
    ensures
        r.deep_view() == v.deep_view(),
{
    let n = v.len();
    let mut out: Vec<(String, String)> = Vec::new();
    let mut i: usize = 0;
    while i < n
        invariant
            i <= n,
            n == v@.len(),
            out@.len() == i,
            forall|j: int| 0 <= j < i ==> out.deep_view()[j] == v.deep_view()[j],
        decreases n - i,
    {
        let p = &v[i];
        out.push((p.0.clone(), p.1.clone()));
        i += 1;
    }
    proof {
        assert(out.deep_view() =~= v.deep_view());
    }
    out
}

/// Decides equality of two kinds by their mathematical values.
fn kind_eq(a: &XrefKind, b: &XrefKind) -> (r: bool)
    ensures
        r == (a@ == b@),
{
    match a {
        XrefKind::Codebase => matches!(b, XrefKind::Codebase),
        XrefKind::Product => matches!(b, XrefKind::Product),
        XrefKind::External(x) => match b {
            XrefKind::External(y) => *x == *y,
            _ => false,
        },
    }
}

/// Decides equality of two identifier lists by their mathematical values.
fn identifiers_eq(a: &Vec<(String, String)>, b: &Vec<(String, String)>) -> (r: bool)
    ensures
        r == (a.deep_view() == b.deep_view()),
{
    let n = a.len();
    if n != b.len() {
        proof {
            assert(a.deep_view().len() == a@.len());
            assert(b.deep_view().len() == b@.len());
        }
        return false;
    }
    let mut i: usize = 0;
    while i < n
        invariant
            i <= n,
            n == a@.len(),
            n == b@.len(),
            forall|j: int| 0 <= j < i ==> a.deep_view()[j] == b.deep_view()[j],
        decreases n - i,
    {
        let pa = &a[i];
        let pb = &b[i];
        let first_eq = pa.0 == pb.0;
        if !(first_eq && pa.1 == pb.1) {
            proof {
                assert(a.deep_view()[i as int] != b.deep_view()[i as int]);
            }
            return false;
        }
        i += 1;
    }
    proof {
        assert(a.deep_view() =~= b.deep_view());
    }
    true
}

/// Decides equality of two cross-references by their mathematical values.
pub fn xref_eq(a: &Xref, b: &Xref) -> (r: bool)
    ensures
        r == (a@ == b@),
{
    let r = kind_eq(&a.kind, &b.kind) && identifiers_eq(&a.identifiers, &b.identifiers);
    proof {
        if r {
            assert(a@ =~= b@);
        }
    }
    r
}

/// Tests whether an equal cross-reference is already present.
pub fn xrefs_contains(v: &Vec<Xref>, x: &Xref) -> (r: bool)
    ensures
        r == xref_seq_view(v@).contains(x@),
{
    let n = v.len();
    let mut i: usize = 0;
    while i < n
        invariant
            i <= n,
            n == v@.len(),
            forall|j: int| 0 <= j < i ==> xref_seq_view(v@)[j] != x@,
        decreases n - i,
    {
        if xref_eq(&v[i], x) {
            proof {
                assert(xref_seq_view(v@)[i as int] == x@);
            }
            return true;
        }
        i += 1;
    }
    false
}

/// Copies a vector of cross-references, preserving its mathematical value.
pub fn clone_xrefs(v: &Vec<Xref>) -> (r: Vec<Xref>)
    ensures
        xref_seq_view(r@) == xref_seq_view(v@),
{
    let n = v.len();
    let mut out: Vec<Xref> = Vec::new();
    let mut i: usize = 0;
    while i < n
        invariant
            i <= n,
            n == v@.len(),
            out@.len() == i,
            forall|j: int| 0 <= j < i ==> xref_seq_view(out@)[j] == xref_seq_view(v@)[j],
        decreases n - i,
    {
        out.push(v[i].clone());
        i += 1;
    }
    proof {
        assert(xref_seq_view(out@) =~= xref_seq_view(v@));
    }
    out
}

/// Unions the cross-references of `incoming` into `existing`, never
/// replacing and never duplicating a reference already present.
pub fn merge_xrefs(existing: &Vec<Xref>, incoming: &Vec<Xref>) -> (r: Vec<Xref>)
    ensures
        xref_seq_view(r@) == xref_union(xref_seq_view(existing@), xref_seq_view(incoming@)),
{
    let a = Ghost(xref_seq_view(existing@));
    let b = Ghost(xref_seq_view(incoming@));
    let mut out = clone_xrefs(existing);
    let n = incoming.len();
    let mut i: usize = 0;
    while i < n
        invariant
            i <= n,
            n == incoming@.len(),
            b@ == xref_seq_view(incoming@),
            xref_seq_view(out@) == xref_union(a@, b@.take(i as int)),
        decreases n - i,
    {
        let x = &incoming[i];
        proof {
            assert(b@.take(i + 1).drop_last() =~= b@.take(i as int));
            assert(b@.take(i + 1).last() == x@);
        }
        if !xrefs_contains(&out, x) {
            out.push(x.clone());
            proof {
                assert(xref_seq_view(out@) =~= xref_union(a@, b@.take(i as int)).push(x@));
            }
        }
        i += 1;
    }
    proof {
        assert(b@.take(n as int) =~= b@);
    }
    out
}

} // verus!
