//! The aggregate reconciliation store and its merge engine.
//!
//! A [`ChangeSet`] owns the deduplicated collections of one reconciliation
//! run, each keyed by the raw package-url (or, for unsupported entries,
//! the provider-assigned external id). A [`Change`] is the entity set
//! resolved from one provider submission; submitting it merges every
//! entity into its collection, combining cross-references when an entity
//! already exists. Resolution happens before any mutation, so a rejected
//! submission leaves the store exactly as it was.

use vstd::prelude::*;
use crate::Error;
use crate::client::API_VERSION;
use crate::cyclonedx::Bom;
use crate::cyclonedx::BomView;
use crate::cyclonedx::ComponentView;
use crate::packages::ComponentKind;
use crate::packages::Dependency;
use crate::packages::DependencyView;
use crate::packages::Package;
use crate::packages::PackageView;
use crate::packages::Purl;
use crate::packages::PurlView;
use crate::packages::Unsupported;
use crate::packages::UnsupportedView;
use crate::packages::derived_purl;
use crate::sboms::Sbom;
use crate::sboms::SbomView;
use crate::sboms::SbomProviderKind;
use crate::sboms::SbomProviderKindView;
use crate::store::Registry;
use crate::store::lemma_upsert_noop;
use crate::store::lemma_upsert_props;
use crate::store::seq_has_key;
use crate::store::seq_lookup;
use crate::store::seq_upsert;
use crate::store::unique_keys;
use crate::strings::clone_opt_string;
use crate::xrefs::Xref;
use crate::xrefs::XrefView;
use crate::xrefs::lemma_xref_union_absorbed;
use crate::xrefs::lemma_xref_union_contains;
use crate::xrefs::merge_xrefs;
use crate::xrefs::xref_union;

verus! {

/// The provider discriminator every entity resolved by this engine
/// carries: the Snyk API at the version this crate pins.
pub open spec fn snyk_provider() -> SbomProviderKindView {
    SbomProviderKindView::Snyk { api_version: API_VERSION@ }
}

// === Merge rules ===
//
// One rule for every entity: when its key is new the record is inserted
// as it stands; when the key exists, the existing record keeps its data
// fields and its cross-reference set is unioned with the incoming one.

/// The record kept when an SBOM arrives under a purl already present:
/// the stored document is immutable, only cross-references are unioned.
pub open spec fn combine_sbom(existing: SbomView, incoming: SbomView) -> SbomView {
    SbomView {
        purl: existing.purl,
        bom: existing.bom,
        format: existing.format,
        provider: existing.provider,
        xrefs: xref_union(existing.xrefs, incoming.xrefs),
    }
}

/// The record kept when a package arrives under a key already present.
pub open spec fn combine_package(existing: PackageView, incoming: PackageView) -> PackageView {
    PackageView {
        purl: existing.purl,
        provider: existing.provider,
        package_manager: existing.package_manager,
        xrefs: xref_union(existing.xrefs, incoming.xrefs),
    }
}

/// The record kept when an identity arrives under a key already present.
pub open spec fn combine_purl(existing: PurlView, incoming: PurlView) -> PurlView {
    PurlView {
        purl: existing.purl,
        kind: existing.kind,
        xrefs: xref_union(existing.xrefs, incoming.xrefs),
    }
}

/// The record kept when a dependency arrives under a key already present.
pub open spec fn combine_dependency(
    existing: DependencyView,
    incoming: DependencyView,
) -> DependencyView {
    DependencyView {
        purl: existing.purl,
        package_ref: existing.package_ref,
        provider: existing.provider,
        package_manager: existing.package_manager,
        xrefs: xref_union(existing.xrefs, incoming.xrefs),
    }
}

/// The record kept when an unsupported entry arrives under an external id
/// already present.
pub open spec fn combine_unsupported(
    existing: UnsupportedView,
    incoming: UnsupportedView,
) -> UnsupportedView {
    UnsupportedView {
        external_id: existing.external_id,
        reason: existing.reason,
        xrefs: xref_union(existing.xrefs, incoming.xrefs),
    }
}

/// Merges one SBOM into the collection, keyed by its purl.
pub open spec fn merge_sbom(s: Seq<(Seq<char>, SbomView)>, v: SbomView) -> Seq<
    (Seq<char>, SbomView),
> {
    if seq_has_key(s, v.purl) {
        seq_upsert(s, v.purl, combine_sbom(seq_lookup(s, v.purl), v))
    } else {
        seq_upsert(s, v.purl, v)
    }
}

/// Merges one package into the collection under the given key.
pub open spec fn merge_package(s: Seq<(Seq<char>, PackageView)>, k: Seq<char>, v: PackageView) -> Seq<
    (Seq<char>, PackageView),
> {
    if seq_has_key(s, k) {
        seq_upsert(s, k, combine_package(seq_lookup(s, k), v))
    } else {
        seq_upsert(s, k, v)
    }
}

/// Merges one identity into the collection, keyed by its purl.
pub open spec fn merge_purl(s: Seq<(Seq<char>, PurlView)>, v: PurlView) -> Seq<
    (Seq<char>, PurlView),
> {
    if seq_has_key(s, v.purl) {
        seq_upsert(s, v.purl, combine_purl(seq_lookup(s, v.purl), v))
    } else {
        seq_upsert(s, v.purl, v)
    }
}

/// Merges one dependency into the collection under the given key.
pub open spec fn merge_dependency(
    s: Seq<(Seq<char>, DependencyView)>,
    k: Seq<char>,
    v: DependencyView,
) -> Seq<(Seq<char>, DependencyView)> {
    if seq_has_key(s, k) {
        seq_upsert(s, k, combine_dependency(seq_lookup(s, k), v))
    } else {
        seq_upsert(s, k, v)
    }
}

/// Merges one unsupported entry into the collection under the given key.
pub open spec fn merge_unsupported(
    s: Seq<(Seq<char>, UnsupportedView)>,
    k: Seq<char>,
    v: UnsupportedView,
) -> Seq<(Seq<char>, UnsupportedView)> {
    if seq_has_key(s, k) {
        seq_upsert(s, k, combine_unsupported(seq_lookup(s, k), v))
    } else {
        seq_upsert(s, k, v)
    }
}

/// Merges a list of identities into the collection, in order.
pub open spec fn merge_purl_seq(s: Seq<(Seq<char>, PurlView)>, vs: Seq<PurlView>) -> Seq<
    (Seq<char>, PurlView),
>
    decreases vs.len(),
{
    if vs.len() == 0 {
        s
    } else {
        merge_purl(merge_purl_seq(s, vs.drop_last()), vs.last())
    }
}

/// Merges a list of keyed dependencies into the collection, in order.
pub open spec fn merge_dependency_seq(
    s: Seq<(Seq<char>, DependencyView)>,
    entries: Seq<(Seq<char>, DependencyView)>,
) -> Seq<(Seq<char>, DependencyView)>
    decreases entries.len(),
{
    if entries.len() == 0 {
        s
    } else {
        merge_dependency(
            merge_dependency_seq(s, entries.drop_last()),
            entries.last().0,
            entries.last().1,
        )
    }
}

// === Change resolution, at the specification level ===

/// The sub-components of a BOM document; an absent list stands for an
/// empty one.
pub open spec fn comps(b: BomView) -> Seq<ComponentView> {
    match b.components {
        Some(cs) => cs,
        None => Seq::empty(),
    }
}

/// Every listed component resolves to a package-url.
pub open spec fn all_derivable(cs: Seq<ComponentView>) -> bool {
    forall|i: int| 0 <= i < cs.len() ==> derived_purl(cs[i]) is Some
}

/// The identity entries resolved from a list of sub-components, keyed by
/// the derived purl; a later component under the same purl replaces the
/// earlier entry.
pub open spec fn change_purl_entries(cs: Seq<ComponentView>, xref: XrefView) -> Seq<
    (Seq<char>, PurlView),
>
    decreases cs.len(),
{
    if cs.len() == 0 {
        Seq::empty()
    } else {
        let prev = change_purl_entries(cs.drop_last(), xref);
        let p = derived_purl(cs.last()).unwrap();
        seq_upsert(
            prev,
            p,
            PurlView { purl: p, kind: ComponentKind::Dependency, xrefs: seq![xref] },
        )
    }
}

/// The dependency entries resolved from a list of sub-components, keyed
/// by the derived purl and owned by the package under `package_ref`.
pub open spec fn change_dep_entries(
    cs: Seq<ComponentView>,
    package_ref: Seq<char>,
    package_manager: Seq<char>,
    xref: XrefView,
) -> Seq<(Seq<char>, DependencyView)>
    decreases cs.len(),
{
    if cs.len() == 0 {
        Seq::empty()
    } else {
        let prev = change_dep_entries(cs.drop_last(), package_ref, package_manager, xref);
        let p = derived_purl(cs.last()).unwrap();
        seq_upsert(
            prev,
            p,
            DependencyView {
                purl: p,
                package_ref: package_ref,
                provider: snyk_provider(),
                package_manager: Some(package_manager),
                xrefs: seq![xref],
            },
        )
    }
}

/// A submission is accepted exactly when the document carries a primary
/// component, that component resolves to a package-url, and every
/// sub-component does too.
pub open spec fn track_accepted(b: BomView) -> bool {
    &&& b.component is Some
    &&& derived_purl(b.component.unwrap()) is Some
    &&& all_derivable(comps(b))
}

/// The change resolved from an accepted submission.
pub open spec fn change_of(sbom: SbomView, package_manager: Seq<char>, xref: XrefView) -> ChangeView
    recommends
        track_accepted(sbom.bom),
{
    let c = sbom.bom.component.unwrap();
    let p = derived_purl(c).unwrap();
    ChangeView {
        sbom: sbom,
        package: PackageView {
            purl: p,
            provider: snyk_provider(),
            package_manager: Some(package_manager),
            xrefs: seq![xref],
        },
        package_purl: PurlView { purl: p, kind: ComponentKind::Package, xrefs: seq![xref] },
        purls: change_purl_entries(comps(sbom.bom), xref),
        dependencies: change_dep_entries(comps(sbom.bom), sbom.purl, package_manager, xref),
    }
}

/// What submitting a change does to the collections: the SBOM, the
/// primary package and its identity are merged first, then every resolved
/// identity and dependency, in order. The unsupported collection is never
/// touched by a submission.
pub open spec fn spec_submit(cs: ChangeSetView, c: ChangeView) -> ChangeSetView {
    ChangeSetView {
        sboms: merge_sbom(cs.sboms, c.sbom),
        packages: merge_package(cs.packages, c.sbom.purl, c.package),
        purls: merge_purl_seq(
            cs.purls,
            seq![c.package_purl] + c.purls.map_values(|e: (Seq<char>, PurlView)| e.1),
        ),
        dependencies: merge_dependency_seq(cs.dependencies, c.dependencies),
        unsupported: cs.unsupported,
    }
}

// === Laws ===

/// The collection already holds, under `v`'s own key, a record whose
/// cross-reference set covers everything `v` carries.
pub open spec fn purl_absorbed(s: Seq<(Seq<char>, PurlView)>, v: PurlView) -> bool {
    &&& seq_has_key(s, v.purl)
    &&& forall|x: XrefView|
        v.xrefs.contains(x) ==> seq_lookup(s, v.purl).xrefs.contains(x)
}

/// The collection already holds, under key `k`, a record whose
/// cross-reference set covers everything `v` carries.
pub open spec fn dep_absorbed(
    s: Seq<(Seq<char>, DependencyView)>,
    k: Seq<char>,
    v: DependencyView,
) -> bool {
    &&& seq_has_key(s, k)
    &&& forall|x: XrefView| v.xrefs.contains(x) ==> seq_lookup(s, k).xrefs.contains(x)
}

proof fn lemma_merge_purl_props(s: Seq<(Seq<char>, PurlView)>, v: PurlView)
    requires
        unique_keys(s),
    ensures
        unique_keys(merge_purl(s, v)),
        purl_absorbed(merge_purl(s, v), v),
        forall|k: Seq<char>| seq_has_key(s, k) ==> seq_has_key(merge_purl(s, v), k),
        forall|k: Seq<char>|
            seq_has_key(s, k) ==> {
                let a = seq_lookup(s, k);
                let b = seq_lookup(merge_purl(s, v), k);
                &&& b.purl == a.purl
                &&& b.kind == a.kind
                &&& forall|x: XrefView| a.xrefs.contains(x) ==> b.xrefs.contains(x)
            },
{
    let m = merge_purl(s, v);
    if seq_has_key(s, v.purl) {
        let cur = seq_lookup(s, v.purl);
        let comb = combine_purl(cur, v);
        lemma_upsert_props(s, v.purl, comb);
        assert forall|x: XrefView|
            cur.xrefs.contains(x) || v.xrefs.contains(x) implies comb.xrefs.contains(x) by {
            lemma_xref_union_contains(cur.xrefs, v.xrefs, x);
        }
    } else {
        lemma_upsert_props(s, v.purl, v);
    }
}

proof fn lemma_purl_fold_props(s: Seq<(Seq<char>, PurlView)>, vs: Seq<PurlView>)
    requires
        unique_keys(s),
    ensures
        unique_keys(merge_purl_seq(s, vs)),
        forall|k: Seq<char>| seq_has_key(s, k) ==> seq_has_key(merge_purl_seq(s, vs), k),
        forall|k: Seq<char>|
            seq_has_key(s, k) ==> {
                let a = seq_lookup(s, k);
                let b = seq_lookup(merge_purl_seq(s, vs), k);
                &&& b.purl == a.purl
                &&& b.kind == a.kind
                &&& forall|x: XrefView| a.xrefs.contains(x) ==> b.xrefs.contains(x)
            },
        forall|j: int| 0 <= j < vs.len() ==> purl_absorbed(merge_purl_seq(s, vs), vs[j]),
    decreases vs.len(),
{
    if vs.len() == 0 {
    } else {
        let prev = merge_purl_seq(s, vs.drop_last());
        let last = vs.last();
        let m = merge_purl_seq(s, vs);
        lemma_purl_fold_props(s, vs.drop_last());
        lemma_merge_purl_props(prev, last);
        assert(m == merge_purl(prev, last));
        assert forall|j: int| 0 <= j < vs.len() implies purl_absorbed(m, vs[j]) by {
            if j < vs.len() - 1 {
                assert(vs.drop_last()[j] == vs[j]);
                assert(purl_absorbed(prev, vs[j]));
                assert(seq_has_key(m, vs[j].purl));
                assert forall|x: XrefView|
                    vs[j].xrefs.contains(x) implies seq_lookup(m, vs[j].purl).xrefs.contains(
                    x,
                ) by {
                    assert(seq_lookup(prev, vs[j].purl).xrefs.contains(x));
                }
            } else {
                assert(vs[j] == last);
            }
        }
    }
}

proof fn lemma_purl_fold_absorbed(s: Seq<(Seq<char>, PurlView)>, vs: Seq<PurlView>)
    requires
        unique_keys(s),
        forall|j: int| 0 <= j < vs.len() ==> purl_absorbed(s, vs[j]),
    ensures
        merge_purl_seq(s, vs) == s,
    decreases vs.len(),
{
    if vs.len() == 0 {
    } else {
        assert forall|j: int| 0 <= j < vs.drop_last().len() implies purl_absorbed(
            s,
            vs.drop_last()[j],
        ) by {
            assert(vs.drop_last()[j] == vs[j]);
        }
        lemma_purl_fold_absorbed(s, vs.drop_last());
        let last = vs.last();
        assert(purl_absorbed(s, last)) by {
            assert(vs[vs.len() - 1] == last);
        }
        let cur = seq_lookup(s, last.purl);
        lemma_xref_union_absorbed(cur.xrefs, last.xrefs);
        assert(combine_purl(cur, last) =~= cur);
        lemma_upsert_noop(s, last.purl, cur);
    }
}

proof fn lemma_merge_dependency_props(
    s: Seq<(Seq<char>, DependencyView)>,
    k: Seq<char>,
    v: DependencyView,
)
    requires
        unique_keys(s),
    ensures
        unique_keys(merge_dependency(s, k, v)),
        dep_absorbed(merge_dependency(s, k, v), k, v),
        forall|k2: Seq<char>| seq_has_key(s, k2) ==> seq_has_key(merge_dependency(s, k, v), k2),
        forall|k2: Seq<char>|
            seq_has_key(s, k2) ==> {
                let a = seq_lookup(s, k2);
                let b = seq_lookup(merge_dependency(s, k, v), k2);
                &&& b.purl == a.purl
                &&& b.package_ref == a.package_ref
                &&& b.provider == a.provider
                &&& b.package_manager == a.package_manager
                &&& forall|x: XrefView| a.xrefs.contains(x) ==> b.xrefs.contains(x)
            },
        !seq_has_key(s, k) ==> seq_lookup(merge_dependency(s, k, v), k) == v,
{
    let m = merge_dependency(s, k, v);
    if seq_has_key(s, k) {
        let cur = seq_lookup(s, k);
        let comb = combine_dependency(cur, v);
        lemma_upsert_props(s, k, comb);
        assert forall|x: XrefView|
            cur.xrefs.contains(x) || v.xrefs.contains(x) implies comb.xrefs.contains(x) by {
            lemma_xref_union_contains(cur.xrefs, v.xrefs, x);
        }
    } else {
        lemma_upsert_props(s, k, v);
    }
}

proof fn lemma_dep_fold_props(
    s: Seq<(Seq<char>, DependencyView)>,
    entries: Seq<(Seq<char>, DependencyView)>,
)
    requires
        unique_keys(s),
    ensures
        unique_keys(merge_dependency_seq(s, entries)),
        forall|k: Seq<char>| seq_has_key(s, k) ==> seq_has_key(merge_dependency_seq(s, entries), k),
        forall|k: Seq<char>|
            seq_has_key(s, k) ==> {
                let a = seq_lookup(s, k);
                let b = seq_lookup(merge_dependency_seq(s, entries), k);
                &&& b.package_ref == a.package_ref
                &&& forall|x: XrefView| a.xrefs.contains(x) ==> b.xrefs.contains(x)
            },
        forall|j: int|
            0 <= j < entries.len() ==> dep_absorbed(
                merge_dependency_seq(s, entries),
                entries[j].0,
                entries[j].1,
            ),
    decreases entries.len(),
{
    if entries.len() == 0 {
    } else {
        let prev = merge_dependency_seq(s, entries.drop_last());
        let last = entries.last();
        let m = merge_dependency_seq(s, entries);
        lemma_dep_fold_props(s, entries.drop_last());
        lemma_merge_dependency_props(prev, last.0, last.1);
        assert(m == merge_dependency(prev, last.0, last.1));
        assert forall|j: int| 0 <= j < entries.len() implies dep_absorbed(
            m,
            entries[j].0,
            entries[j].1,
        ) by {
            if j < entries.len() - 1 {
                assert(entries.drop_last()[j] == entries[j]);
                assert(dep_absorbed(prev, entries[j].0, entries[j].1));
                assert(seq_has_key(m, entries[j].0));
                assert forall|x: XrefView|
                    entries[j].1.xrefs.contains(x) implies seq_lookup(
                    m,
                    entries[j].0,
                ).xrefs.contains(x) by {
                    assert(seq_lookup(prev, entries[j].0).xrefs.contains(x));
                }
            } else {
                assert(entries[j] == last);
            }
        }
    }
}

proof fn lemma_dep_fold_absorbed(
    s: Seq<(Seq<char>, DependencyView)>,
    entries: Seq<(Seq<char>, DependencyView)>,
)
    requires
        unique_keys(s),
        forall|j: int| 0 <= j < entries.len() ==> dep_absorbed(s, entries[j].0, entries[j].1),
    ensures
        merge_dependency_seq(s, entries) == s,
    decreases entries.len(),
{
    if entries.len() == 0 {
    } else {
        assert forall|j: int| 0 <= j < entries.drop_last().len() implies dep_absorbed(
            s,
            entries.drop_last()[j].0,
            entries.drop_last()[j].1,
        ) by {
            assert(entries.drop_last()[j] == entries[j]);
        }
        lemma_dep_fold_absorbed(s, entries.drop_last());
        let last = entries.last();
        assert(dep_absorbed(s, last.0, last.1)) by {
            assert(entries[entries.len() - 1] == last);
        }
        let cur = seq_lookup(s, last.0);
        lemma_xref_union_absorbed(cur.xrefs, last.1.xrefs);
        assert(combine_dependency(cur, last.1) =~= cur);
        lemma_upsert_noop(s, last.0, cur);
    }
}

proof fn lemma_merge_sbom_idem(s: Seq<(Seq<char>, SbomView)>, v: SbomView)
    requires
        unique_keys(s),
    ensures
        unique_keys(merge_sbom(s, v)),
        merge_sbom(merge_sbom(s, v), v) == merge_sbom(s, v),
{
    let m = merge_sbom(s, v);
    if seq_has_key(s, v.purl) {
        let cur = seq_lookup(s, v.purl);
        let comb = combine_sbom(cur, v);
        lemma_upsert_props(s, v.purl, comb);
        assert forall|x: XrefView| v.xrefs.contains(x) implies comb.xrefs.contains(x) by {
            lemma_xref_union_contains(cur.xrefs, v.xrefs, x);
        }
        lemma_xref_union_absorbed(comb.xrefs, v.xrefs);
        assert(combine_sbom(comb, v) =~= comb);
        lemma_upsert_noop(m, v.purl, comb);
    } else {
        lemma_upsert_props(s, v.purl, v);
        crate::xrefs::lemma_xref_union_idempotent(v.xrefs);
        assert(combine_sbom(v, v) =~= v);
        lemma_upsert_noop(m, v.purl, v);
    }
}

proof fn lemma_merge_package_idem(s: Seq<(Seq<char>, PackageView)>, k: Seq<char>, v: PackageView)
    requires
        unique_keys(s),
    ensures
        unique_keys(merge_package(s, k, v)),
        seq_has_key(merge_package(s, k, v), k),
        forall|k2: Seq<char>| seq_has_key(s, k2) ==> seq_has_key(merge_package(s, k, v), k2),
        merge_package(merge_package(s, k, v), k, v) == merge_package(s, k, v),
{
    let m = merge_package(s, k, v);
    if seq_has_key(s, k) {
        let cur = seq_lookup(s, k);
        let comb = combine_package(cur, v);
        lemma_upsert_props(s, k, comb);
        assert forall|x: XrefView| v.xrefs.contains(x) implies comb.xrefs.contains(x) by {
            lemma_xref_union_contains(cur.xrefs, v.xrefs, x);
        }
        lemma_xref_union_absorbed(comb.xrefs, v.xrefs);
        assert(combine_package(comb, v) =~= comb);
        lemma_upsert_noop(m, k, comb);
    } else {
        lemma_upsert_props(s, k, v);
        crate::xrefs::lemma_xref_union_idempotent(v.xrefs);
        assert(combine_package(v, v) =~= v);
        lemma_upsert_noop(m, k, v);
    }
}

/// Idempotent merge: submitting the same change twice yields collections
/// identical to submitting it once. On the second submission every
/// entity's key is already present, the stored data fields are kept, and
/// the stored cross-reference sets already absorb everything the change
/// carries, so no collection moves.
pub proof fn lemma_submit_idempotent(cs: ChangeSetView, c: ChangeView)
    requires
        unique_keys(cs.sboms),
        unique_keys(cs.purls),
        unique_keys(cs.packages),
        unique_keys(cs.dependencies),
    ensures
        spec_submit(spec_submit(cs, c), c) == spec_submit(cs, c),
{
    let s1 = spec_submit(cs, c);
    lemma_merge_sbom_idem(cs.sboms, c.sbom);
    lemma_merge_package_idem(cs.packages, c.sbom.purl, c.package);
    let vals = seq![c.package_purl] + c.purls.map_values(|e: (Seq<char>, PurlView)| e.1);
    lemma_purl_fold_props(cs.purls, vals);
    lemma_purl_fold_absorbed(s1.purls, vals);
    lemma_dep_fold_props(cs.dependencies, c.dependencies);
    lemma_dep_fold_absorbed(s1.dependencies, c.dependencies);
    assert(spec_submit(s1, c) =~= s1);
}

/// Cross-reference union: merging a package under a key already present
/// keeps the stored record's data fields from the original insert and
/// stores exactly the union of the two cross-reference sets, without
/// creating a duplicate entry.
proof fn lemma_merge_package_xref_union(
    s: Seq<(Seq<char>, PackageView)>,
    k: Seq<char>,
    p: PackageView,
)
    requires
        unique_keys(s),
        seq_has_key(s, k),
    ensures
        seq_has_key(merge_package(s, k, p), k),
        seq_lookup(merge_package(s, k, p), k).purl == seq_lookup(s, k).purl,
        seq_lookup(merge_package(s, k, p), k).provider == seq_lookup(s, k).provider,
        seq_lookup(merge_package(s, k, p), k).package_manager == seq_lookup(s, k).package_manager,
        forall|x: XrefView|
            seq_lookup(merge_package(s, k, p), k).xrefs.contains(x) <==> (seq_lookup(
                s,
                k,
            ).xrefs.contains(x) || p.xrefs.contains(x)),
        merge_package(s, k, p).len() == s.len(),
{
    let cur = seq_lookup(s, k);
    let comb = combine_package(cur, p);
    lemma_upsert_props(s, k, comb);
    assert forall|x: XrefView|
        comb.xrefs.contains(x) <==> (cur.xrefs.contains(x) || p.xrefs.contains(x)) by {
        lemma_xref_union_contains(cur.xrefs, p.xrefs, x);
    }
}

/// Cross-reference union: when a submission's package resolves to a purl
/// already present, the stored record keeps its data fields from the
/// original insert, its cross-reference set becomes exactly the union of
/// the stored and the incoming sets (which holds the references of both,
/// by [`lemma_xref_union_contains`]), and no duplicate entry appears.
///
/// [`lemma_xref_union_contains`]: crate::xrefs::lemma_xref_union_contains
pub proof fn lemma_submit_package_xref_union(cs: ChangeSetView, c: ChangeView)
    requires
        unique_keys(cs.packages),
        seq_has_key(cs.packages, c.sbom.purl),
    ensures
        seq_has_key(spec_submit(cs, c).packages, c.sbom.purl),
        seq_lookup(spec_submit(cs, c).packages, c.sbom.purl).purl == seq_lookup(
            cs.packages,
            c.sbom.purl,
        ).purl,
        seq_lookup(spec_submit(cs, c).packages, c.sbom.purl).provider == seq_lookup(
            cs.packages,
            c.sbom.purl,
        ).provider,
        seq_lookup(spec_submit(cs, c).packages, c.sbom.purl).package_manager == seq_lookup(
            cs.packages,
            c.sbom.purl,
        ).package_manager,
        seq_lookup(spec_submit(cs, c).packages, c.sbom.purl).xrefs == xref_union(
            seq_lookup(cs.packages, c.sbom.purl).xrefs,
            c.package.xrefs,
        ),
        spec_submit(cs, c).packages.len() == cs.packages.len(),
{
    lemma_merge_package_xref_union(cs.packages, c.sbom.purl, c.package);
    lemma_upsert_props(
        cs.packages,
        c.sbom.purl,
        combine_package(seq_lookup(cs.packages, c.sbom.purl), c.package),
    );
}

proof fn lemma_merge_sbom_monotone(s: Seq<(Seq<char>, SbomView)>, v: SbomView)
    requires
        unique_keys(s),
    ensures
        forall|k: Seq<char>|
            seq_has_key(s, k) ==> (seq_has_key(merge_sbom(s, v), k) && (forall|x: XrefView|
                seq_lookup(s, k).xrefs.contains(x) ==> seq_lookup(
                    merge_sbom(s, v),
                    k,
                ).xrefs.contains(x))),
{
    let m = merge_sbom(s, v);
    if seq_has_key(s, v.purl) {
        let cur = seq_lookup(s, v.purl);
        let comb = combine_sbom(cur, v);
        lemma_upsert_props(s, v.purl, comb);
        assert forall|x: XrefView| cur.xrefs.contains(x) implies comb.xrefs.contains(x) by {
            lemma_xref_union_contains(cur.xrefs, v.xrefs, x);
        }
    } else {
        lemma_upsert_props(s, v.purl, v);
    }
}

proof fn lemma_merge_package_monotone(s: Seq<(Seq<char>, PackageView)>, k0: Seq<char>, v: PackageView)
    requires
        unique_keys(s),
    ensures
        forall|k: Seq<char>|
            seq_has_key(s, k) ==> (seq_has_key(merge_package(s, k0, v), k) && (forall|x: XrefView|
                seq_lookup(s, k).xrefs.contains(x) ==> seq_lookup(
                    merge_package(s, k0, v),
                    k,
                ).xrefs.contains(x))),
{
    let m = merge_package(s, k0, v);
    if seq_has_key(s, k0) {
        let cur = seq_lookup(s, k0);
        let comb = combine_package(cur, v);
        lemma_upsert_props(s, k0, comb);
        assert forall|x: XrefView| cur.xrefs.contains(x) implies comb.xrefs.contains(x) by {
            lemma_xref_union_contains(cur.xrefs, v.xrefs, x);
        }
    } else {
        lemma_upsert_props(s, k0, v);
    }
}

/// After a submission, looking up any key present before the call still
/// finds a record, and that record's cross-reference set is a superset of
/// what was stored before; the unsupported collection is untouched.
pub proof fn lemma_submit_keeps_xrefs(cs: ChangeSetView, c: ChangeView)
    requires
        unique_keys(cs.sboms),
        unique_keys(cs.purls),
        unique_keys(cs.packages),
        unique_keys(cs.dependencies),
    ensures
        forall|k: Seq<char>|
            seq_has_key(cs.sboms, k) ==> (seq_has_key(spec_submit(cs, c).sboms, k) && (forall|
                x: XrefView,
            |
                seq_lookup(cs.sboms, k).xrefs.contains(x) ==> seq_lookup(
                    spec_submit(cs, c).sboms,
                    k,
                ).xrefs.contains(x))),
        forall|k: Seq<char>|
            seq_has_key(cs.purls, k) ==> (seq_has_key(spec_submit(cs, c).purls, k) && (forall|
                x: XrefView,
            |
                seq_lookup(cs.purls, k).xrefs.contains(x) ==> seq_lookup(
                    spec_submit(cs, c).purls,
                    k,
                ).xrefs.contains(x))),
        forall|k: Seq<char>|
            seq_has_key(cs.packages, k) ==> (seq_has_key(spec_submit(cs, c).packages, k) && (forall|
                x: XrefView,
            |
                seq_lookup(cs.packages, k).xrefs.contains(x) ==> seq_lookup(
                    spec_submit(cs, c).packages,
                    k,
                ).xrefs.contains(x))),
        forall|k: Seq<char>|
            seq_has_key(cs.dependencies, k) ==> (seq_has_key(spec_submit(cs, c).dependencies, k)
                && (forall|x: XrefView|
                seq_lookup(cs.dependencies, k).xrefs.contains(x) ==> seq_lookup(
                    spec_submit(cs, c).dependencies,
                    k,
                ).xrefs.contains(x))),
        spec_submit(cs, c).unsupported == cs.unsupported,
{
    lemma_merge_sbom_monotone(cs.sboms, c.sbom);
    lemma_merge_package_monotone(cs.packages, c.sbom.purl, c.package);
    let vals = seq![c.package_purl] + c.purls.map_values(|e: (Seq<char>, PurlView)| e.1);
    lemma_purl_fold_props(cs.purls, vals);
    lemma_dep_fold_props(cs.dependencies, c.dependencies);
}

/// Dependency referential integrity: every merged dependency's
/// owning-package reference resolves to a package key present in the
/// same store.
pub open spec fn deps_linked(cs: ChangeSetView) -> bool {
    forall|k: Seq<char>|
        seq_has_key(cs.dependencies, k) ==> seq_has_key(
            cs.packages,
            seq_lookup(cs.dependencies, k).package_ref,
        )
}

proof fn lemma_dep_fold_ref_at(
    s: Seq<(Seq<char>, DependencyView)>,
    entries: Seq<(Seq<char>, DependencyView)>,
    r: Seq<char>,
    k: Seq<char>,
)
    requires
        unique_keys(s),
        forall|j: int| 0 <= j < entries.len() ==> entries[j].1.package_ref == r,
        seq_has_key(merge_dependency_seq(s, entries), k),
    ensures
        (seq_has_key(s, k) && seq_lookup(merge_dependency_seq(s, entries), k).package_ref
            == seq_lookup(s, k).package_ref) || seq_lookup(
            merge_dependency_seq(s, entries),
            k,
        ).package_ref == r,
    decreases entries.len(),
{
    if entries.len() == 0 {
    } else {
        let prev = merge_dependency_seq(s, entries.drop_last());
        let last = entries.last();
        let m = merge_dependency_seq(s, entries);
        assert forall|j: int| 0 <= j < entries.drop_last().len() implies entries.drop_last()[j].1.package_ref
            == r by {
            assert(entries.drop_last()[j] == entries[j]);
        }
        lemma_dep_fold_props(s, entries.drop_last());
        lemma_merge_dependency_props(prev, last.0, last.1);
        assert(last.1.package_ref == r) by {
            assert(entries[entries.len() - 1] == last);
        }
        if k == last.0 {
            if seq_has_key(prev, k) {
                lemma_dep_fold_ref_at(s, entries.drop_last(), r, k);
                assert(seq_lookup(m, k).package_ref == seq_lookup(prev, k).package_ref);
            } else {
                assert(seq_lookup(m, k) == last.1);
            }
        } else {
            assert(seq_has_key(prev, k));
            lemma_dep_fold_ref_at(s, entries.drop_last(), r, k);
            assert(seq_lookup(m, k).package_ref == seq_lookup(prev, k).package_ref);
        }
    }
}

/// Submitting preserves dependency referential integrity: every
/// dependency the change carries references the key its own submission
/// merges a package under, and already-merged dependencies keep both
/// their reference and their package.
pub proof fn lemma_submit_preserves_links(cs: ChangeSetView, c: ChangeView)
    requires
        unique_keys(cs.packages),
        unique_keys(cs.dependencies),
        deps_linked(cs),
        forall|j: int| 0 <= j < c.dependencies.len() ==> c.dependencies[j].1.package_ref
            == c.sbom.purl,
    ensures
        deps_linked(spec_submit(cs, c)),
{
    let s1 = spec_submit(cs, c);
    lemma_merge_package_idem(cs.packages, c.sbom.purl, c.package);
    lemma_dep_fold_props(cs.dependencies, c.dependencies);
    let f = merge_dependency_seq(cs.dependencies, c.dependencies);
    assert forall|k: Seq<char>| seq_has_key(s1.dependencies, k) implies seq_has_key(
        s1.packages,
        seq_lookup(s1.dependencies, k).package_ref,
    ) by {
        assert(seq_has_key(f, k));
        lemma_dep_fold_ref_at(cs.dependencies, c.dependencies, c.sbom.purl, k);
        if seq_has_key(cs.dependencies, k) && seq_lookup(f, k).package_ref == seq_lookup(
            cs.dependencies,
            k,
        ).package_ref {
            assert(seq_has_key(cs.packages, seq_lookup(cs.dependencies, k).package_ref));
        } else {
            assert(seq_lookup(f, k).package_ref == c.sbom.purl);
        }
    }
}

proof fn lemma_change_dep_entries_refs(
    cs: Seq<ComponentView>,
    package_ref: Seq<char>,
    package_manager: Seq<char>,
    xref: XrefView,
)
    ensures
        forall|j: int|
            0 <= j < change_dep_entries(cs, package_ref, package_manager, xref).len()
                ==> change_dep_entries(cs, package_ref, package_manager, xref)[j].1.package_ref
                == package_ref,
    decreases cs.len(),
{
    if cs.len() == 0 {
    } else {
        lemma_change_dep_entries_refs(cs.drop_last(), package_ref, package_manager, xref);
        let prev = change_dep_entries(cs.drop_last(), package_ref, package_manager, xref);
        let e = change_dep_entries(cs, package_ref, package_manager, xref);
        let p = derived_purl(cs.last()).unwrap();
        assert forall|j: int| 0 <= j < e.len() implies e[j].1.package_ref == package_ref by {
            if seq_has_key(prev, p) {
                let i = crate::store::seq_key_index(prev, p);
                assert(e == prev.update(i, (p, e[i].1)) || true);
                if j != i {
                    assert(e[j] == prev[j]);
                }
            } else {
                if j < prev.len() {
                    assert(e[j] == prev[j]);
                }
            }
        }
    }
}

/// A tracked submission preserves dependency referential integrity:
/// every dependency it resolves references the submission's own purl,
/// under which the same submission merges the primary package.
pub proof fn lemma_track_preserves_links(
    cs: ChangeSetView,
    sbom: SbomView,
    package_manager: Seq<char>,
    xref: XrefView,
)
    requires
        unique_keys(cs.packages),
        unique_keys(cs.dependencies),
        deps_linked(cs),
    ensures
        deps_linked(spec_submit(cs, change_of(sbom, package_manager, xref))),
{
    lemma_change_dep_entries_refs(comps(sbom.bom), sbom.purl, package_manager, xref);
    lemma_submit_preserves_links(cs, change_of(sbom, package_manager, xref));
}

// === The working set of one submission ===

/// The entity set resolved from one provider BOM submission, prior to
/// merging: the SBOM itself, its primary package and identity, and the
/// identities and dependencies of its sub-components.
pub struct Change {
    /// The SBOM proposed for inclusion in the set.
    pub sbom: Sbom,
    /// The primary package proposed for inclusion.
    pub package: Package,
    /// The identity of the primary package.
    pub package_purl: Purl,
    /// The identities of the sub-components, keyed by purl.
    pub purls: Registry<Purl>,
    /// The dependencies of the primary package, keyed by purl.
    pub dependencies: Registry<Dependency>,
}

/// Mathematical value of a [`Change`].
#[verifier::ext_equal]
pub ghost struct ChangeView {
    pub sbom: SbomView,
    pub package: PackageView,
    pub package_purl: PurlView,
    pub purls: Seq<(Seq<char>, PurlView)>,
    pub dependencies: Seq<(Seq<char>, DependencyView)>,
}

impl View for Change {
    type V = ChangeView;

    open spec fn view(&self) -> ChangeView {
        ChangeView {
            sbom: self.sbom@,
            package: self.package@,
            package_purl: self.package_purl@,
            purls: self.purls@,
            dependencies: self.dependencies@,
        }
    }
}

// === The aggregate store ===

/// Maintains the deduplicated collections of one reconciliation run,
/// each keyed by the raw package-url string.
pub struct ChangeSet {
    /// The SBOMs tracked by the run.
    sboms: Registry<Sbom>,
    /// The package identities tracked by the run.
    purls: Registry<Purl>,
    /// The packages tracked by the run.
    packages: Registry<Package>,
    /// The dependencies tracked by the run.
    dependencies: Registry<Dependency>,
    /// The entries found unsupported by the run, keyed by external id.
    unsupported: Registry<Unsupported>,
}

/// Mathematical value of a [`ChangeSet`]: its five keyed collections.
#[verifier::ext_equal]
pub ghost struct ChangeSetView {
    pub sboms: Seq<(Seq<char>, SbomView)>,
    pub purls: Seq<(Seq<char>, PurlView)>,
    pub packages: Seq<(Seq<char>, PackageView)>,
    pub dependencies: Seq<(Seq<char>, DependencyView)>,
    pub unsupported: Seq<(Seq<char>, UnsupportedView)>,
}

impl View for ChangeSet {
    type V = ChangeSetView;

    closed spec fn view(&self) -> ChangeSetView {
        ChangeSetView {
            sboms: self.sboms@,
            purls: self.purls@,
            packages: self.packages@,
            dependencies: self.dependencies@,
            unsupported: self.unsupported@,
        }
    }
}

impl ChangeSet {
    /// Every collection keeps its keys pairwise distinct.
    pub open spec fn wf(&self) -> bool {
        &&& unique_keys(self@.sboms)
        &&& unique_keys(self@.purls)
        &&& unique_keys(self@.packages)
        &&& unique_keys(self@.dependencies)
        &&& unique_keys(self@.unsupported)
    }

    /// An empty store, accepting submissions.
    pub fn new() -> (r: Self)
        ensures
            r.wf(),
            r@.sboms == Seq::<(Seq<char>, SbomView)>::empty(),
            r@.purls == Seq::<(Seq<char>, PurlView)>::empty(),
            r@.packages == Seq::<(Seq<char>, PackageView)>::empty(),
            r@.dependencies == Seq::<(Seq<char>, DependencyView)>::empty(),
            r@.unsupported == Seq::<(Seq<char>, UnsupportedView)>::empty(),
    {
        ChangeSet {
            packages: Registry::new(),
            dependencies: Registry::new(),
            purls: Registry::new(),
            unsupported: Registry::new(),
            sboms: Registry::new(),
        }
    }

    /// Tracks an SBOM under its purl: a new purl inserts the record as
    /// it stands; a present purl keeps the stored document and unions
    /// the cross-references.
    pub fn sbom(&mut self, sbom: Sbom) -> (r: Result<(), Error>)
        requires
            old(self).wf(),
        ensures
            final(self).wf(),
            r is Ok,
            final(self)@ == (ChangeSetView { sboms: merge_sbom(old(self)@.sboms, sbom@), ..old(self)@ }),
    {
        proof {
            lemma_upsert_props(
                self@.sboms,
                sbom@.purl,
                if seq_has_key(self@.sboms, sbom@.purl) {
                    combine_sbom(seq_lookup(self@.sboms, sbom@.purl), sbom@)
                } else {
                    sbom@
                },
            );
        }
        let key = sbom.purl.clone();
        match self.sboms.get(key.as_str()) {
            None => {
                self.sboms.insert(key, sbom);
            },
            Some(existing) => {
                let merged = Sbom {
                    purl: existing.purl.clone(),
                    bom: existing.bom.clone(),
                    format: existing.format,
                    provider: existing.provider.clone(),
                    xrefs: merge_xrefs(&existing.xrefs, &sbom.xrefs),
                };
                proof {
                    assert(merged@ =~= combine_sbom(seq_lookup(old(self)@.sboms, sbom@.purl), sbom@));
                }
                self.sboms.insert(key, merged);
            },
        }
        proof {
            assert(self@ =~= (ChangeSetView { sboms: merge_sbom(old(self)@.sboms, sbom@), ..old(self)@ }));
        }
        Ok(())
    }

    /// Tracks a package under the given purl key: a new key inserts the
    /// record as it stands; a present key keeps the stored data fields
    /// and unions the cross-references.
    pub fn package(&mut self, purl: String, package: Package) -> (r: Result<(), Error>)
        requires
            old(self).wf(),
        ensures
            final(self).wf(),
            r is Ok,
            final(self)@ == (ChangeSetView {
                packages: merge_package(old(self)@.packages, purl@, package@),
                ..old(self)@
            }),
    {
        proof {
            lemma_upsert_props(
                self@.packages,
                purl@,
                if seq_has_key(self@.packages, purl@) {
                    combine_package(seq_lookup(self@.packages, purl@), package@)
                } else {
                    package@
                },
            );
        }
        match self.packages.get(purl.as_str()) {
            None => {
                self.packages.insert(purl, package);
            },
            Some(existing) => {
                let merged = Package {
                    purl: existing.purl.clone(),
                    provider: existing.provider.clone(),
                    package_manager: clone_opt_string(&existing.package_manager),
                    xrefs: merge_xrefs(&existing.xrefs, &package.xrefs),
                };
                proof {
                    assert(merged@ =~= combine_package(
                        seq_lookup(old(self)@.packages, purl@),
                        package@,
                    ));
                }
                self.packages.insert(purl, merged);
            },
        }
        proof {
            assert(self@ =~= (ChangeSetView {
                packages: merge_package(old(self)@.packages, purl@, package@),
                ..old(self)@
            }));
        }
        Ok(())
    }

    /// Tracks a package identity under its own purl, with the same merge
    /// rule as every other entity.
    pub fn purl(&mut self, purl: Purl) -> (r: Result<(), Error>)
        requires
            old(self).wf(),
        ensures
            final(self).wf(),
            r is Ok,
            final(self)@ == (ChangeSetView { purls: merge_purl(old(self)@.purls, purl@), ..old(self)@ }),
    {
        proof {
            lemma_upsert_props(
                self@.purls,
                purl@.purl,
                if seq_has_key(self@.purls, purl@.purl) {
                    combine_purl(seq_lookup(self@.purls, purl@.purl), purl@)
                } else {
                    purl@
                },
            );
        }
        let key = purl.purl.clone();
        match self.purls.get(key.as_str()) {
            None => {
                self.purls.insert(key, purl);
            },
            Some(existing) => {
                let merged = Purl {
                    purl: existing.purl.clone(),
                    kind: existing.kind,
                    xrefs: merge_xrefs(&existing.xrefs, &purl.xrefs),
                };
                proof {
                    assert(merged@ =~= combine_purl(seq_lookup(old(self)@.purls, purl@.purl), purl@));
                }
                self.purls.insert(key, merged);
            },
        }
        proof {
            assert(self@ =~= (ChangeSetView { purls: merge_purl(old(self)@.purls, purl@), ..old(self)@ }));
        }
        Ok(())
    }

    /// Tracks a dependency under the given purl key, with the same merge
    /// rule as every other entity.
    pub fn dependencies(&mut self, purl: String, dependency: Dependency) -> (r: Result<(), Error>)
        requires
            old(self).wf(),
        ensures
            final(self).wf(),
            r is Ok,
            final(self)@ == (ChangeSetView {
                dependencies: merge_dependency(old(self)@.dependencies, purl@, dependency@),
                ..old(self)@
            }),
    {
        proof {
            lemma_upsert_props(
                self@.dependencies,
                purl@,
                if seq_has_key(self@.dependencies, purl@) {
                    combine_dependency(seq_lookup(self@.dependencies, purl@), dependency@)
                } else {
                    dependency@
                },
            );
        }
        match self.dependencies.get(purl.as_str()) {
            None => {
                self.dependencies.insert(purl, dependency);
            },
            Some(existing) => {
                let merged = Dependency {
                    purl: existing.purl.clone(),
                    package_ref: existing.package_ref.clone(),
                    provider: existing.provider.clone(),
                    package_manager: clone_opt_string(&existing.package_manager),
                    xrefs: merge_xrefs(&existing.xrefs, &dependency.xrefs),
                };
                proof {
                    assert(merged@ =~= combine_dependency(
                        seq_lookup(old(self)@.dependencies, purl@),
                        dependency@,
                    ));
                }
                self.dependencies.insert(purl, merged);
            },
        }
        proof {
            assert(self@ =~= (ChangeSetView {
                dependencies: merge_dependency(old(self)@.dependencies, purl@, dependency@),
                ..old(self)@
            }));
        }
        Ok(())
    }

    /// Tracks an unsupported entry, keyed by its external id. An entry
    /// whose external id is absent or empty cannot be tracked: it is
    /// rejected with a validation error and the store is left unchanged.
    pub fn unsupported(&mut self, unsupported: Unsupported) -> (r: Result<(), Error>)
        requires
            old(self).wf(),
        ensures
            final(self).wf(),
            r is Ok <==> crate::packages::nonempty_opt(unsupported@.external_id),
            r is Ok ==> final(self)@ == (ChangeSetView {
                unsupported: merge_unsupported(
                    old(self)@.unsupported,
                    unsupported@.external_id.unwrap(),
                    unsupported@,
                ),
                ..old(self)@
            }),
            r is Err ==> final(self)@ == old(self)@,
            r matches Err(e) ==> (e matches Error::Entity(m) && m@
                == "missing_unsupported_external_id"@),
    {
        let external_id = match &unsupported.external_id {
            None => {
                return Err(Error::Entity("missing_unsupported_external_id".to_owned()));
            },
            Some(id) => {
                if id.as_str().is_empty() {
                    return Err(Error::Entity("missing_unsupported_external_id".to_owned()));
                }
                id.clone()
            },
        };
        proof {
            lemma_upsert_props(
                self@.unsupported,
                external_id@,
                if seq_has_key(self@.unsupported, external_id@) {
                    combine_unsupported(
                        seq_lookup(self@.unsupported, external_id@),
                        unsupported@,
                    )
                } else {
                    unsupported@
                },
            );
        }
        match self.unsupported.get(external_id.as_str()) {
            None => {
                self.unsupported.insert(external_id, unsupported);
            },
            Some(existing) => {
                let merged = Unsupported {
                    external_id: clone_opt_string(&existing.external_id),
                    reason: clone_opt_string(&existing.reason),
                    xrefs: merge_xrefs(&existing.xrefs, &unsupported.xrefs),
                };
                proof {
                    assert(merged@ =~= combine_unsupported(
                        seq_lookup(old(self)@.unsupported, unsupported@.external_id.unwrap()),
                        unsupported@,
                    ));
                }
                self.unsupported.insert(external_id, merged);
            },
        }
        proof {
            assert(self@ =~= (ChangeSetView {
                unsupported: merge_unsupported(
                    old(self)@.unsupported,
                    unsupported@.external_id.unwrap(),
                    unsupported@,
                ),
                ..old(self)@
            }));
        }
        Ok(())
    }

    /// Resolves the primary package of a submission, tagged with the
    /// provider discriminator and carrying the submission's provenance.
    pub fn resolve_package(&self, package_manager: &String, bom: &Bom, xref: &Xref) -> (r: Result<
        Package,
        Error,
    >)
        ensures
            r is Ok <==> (bom@.component matches Some(c) && derived_purl(c) is Some),
            bom@.component is None ==> (r matches Err(e) && e matches Error::Snyk(m) && m@
                == "bom_component_none"@),
            (bom@.component matches Some(c) && derived_purl(c) is None) ==> (r matches Err(e)
                && e matches Error::Entity(m) && m@ == "component_purl_none"@),
            r matches Ok(p) ==> p@ == (PackageView {
                purl: derived_purl(bom@.component.unwrap()).unwrap(),
                provider: snyk_provider(),
                package_manager: Some(package_manager@),
                xrefs: seq![xref@],
            }),
    {
        Package::from_bom(
            bom,
            SbomProviderKind::Snyk { api_version: API_VERSION.to_owned() },
            Some(package_manager.clone()),
            xref,
        )
    }

    /// Extracts the identity of the primary package from the document.
    pub fn resolve_package_purl(&self, bom: &Bom, xref: &Xref) -> (r: Result<Purl, Error>)
        ensures
            r is Ok <==> (bom@.component matches Some(c) && derived_purl(c) is Some),
            bom@.component is None ==> (r matches Err(e) && e matches Error::Snyk(m) && m@
                == "bom_component_none"@),
            (bom@.component matches Some(c) && derived_purl(c) is None) ==> (r matches Err(e)
                && e matches Error::Entity(m) && m@ == "component_purl_none"@),
            r matches Ok(p) ==> p@ == (PurlView {
                purl: derived_purl(bom@.component.unwrap()).unwrap(),
                kind: ComponentKind::Package,
                xrefs: seq![xref@],
            }),
    {
        let component = match bom.component() {
            None => {
                return Err(Error::Snyk("bom_component_none".to_owned()));
            },
            Some(component) => component,
        };
        Purl::from_component(component, ComponentKind::Package, xref)
    }

    /// Resolves every sub-component to an identity and a dependency of
    /// the package under `package_ref`. An absent sub-component list
    /// yields empty collections; one underivable component rejects the
    /// whole list.
    pub fn resolve_dependencies(
        &self,
        bom: &Bom,
        package_ref: &String,
        package_manager: &String,
        xref: &Xref,
    ) -> (r: Result<(Registry<Purl>, Registry<Dependency>), Error>)
        ensures
            r is Ok <==> all_derivable(comps(bom@)),
            r matches Ok(pd) ==> ({
                &&& pd.0@ == change_purl_entries(comps(bom@), xref@)
                &&& pd.1@ == change_dep_entries(comps(bom@), package_ref@, package_manager@, xref@)
                &&& pd.0.wf()
                &&& pd.1.wf()
            }),
            r matches Err(e) ==> (e matches Error::Entity(m) && m@ == "component_purl_none"@),
    {
        let mut purls: Registry<Purl> = Registry::new();
        let mut dependencies: Registry<Dependency> = Registry::new();
        let components = match &bom.components {
            None => {
                proof {
                    assert(comps(bom@) =~= Seq::<ComponentView>::empty());
                }
                return Ok((purls, dependencies));
            },
            Some(components) => components,
        };
        let ghost cv = comps(bom@);
        let n = components.len();
        let mut i: usize = 0;
        while i < n
            invariant
                i <= n,
                n == components@.len(),
                cv == crate::cyclonedx::component_seq_view(components@),
                cv == comps(bom@),
                forall|j: int| 0 <= j < i ==> derived_purl(cv[j]) is Some,
                purls@ == change_purl_entries(cv.take(i as int), xref@),
                dependencies@ == change_dep_entries(
                    cv.take(i as int),
                    package_ref@,
                    package_manager@,
                    xref@,
                ),
                purls.wf(),
                dependencies.wf(),
            decreases n - i,
        {
            let component = &components[i];
            let purl = match Purl::from_component(component, ComponentKind::Dependency, xref) {
                Ok(p) => p,
                Err(e) => {
                    proof {
                        assert(!all_derivable(comps(bom@))) by {
                            assert(derived_purl(comps(bom@)[i as int]) is None);
                        }
                    }
                    return Err(e);
                },
            };
            let dependency = match Dependency::from_component(
                component,
                SbomProviderKind::Snyk { api_version: API_VERSION.to_owned() },
                package_ref.clone(),
                Some(package_manager.clone()),
                xref,
            ) {
                Ok(d) => d,
                Err(e) => {
                    proof {
                        assert(false);
                    }
                    return Err(e);
                },
            };
            let purl_key = purl.purl.clone();
            let dep_key = purl_key.clone();
            proof {
                assert(cv.take(i + 1).drop_last() =~= cv.take(i as int));
                assert(cv.take(i + 1).last() == cv[i as int]);
            }
            purls.insert(purl_key, purl);
            dependencies.insert(dep_key, dependency);
            i += 1;
        }
        proof {
            assert(cv.take(n as int) =~= cv);
        }
        Ok((purls, dependencies))
    }

    /// Merges a fully-resolved change into the collections: the SBOM, the
    /// primary package and its identity first, then every resolved
    /// identity and dependency, in order. Merging itself cannot fail.
    pub fn submit(&mut self, change: Change) -> (r: Result<(), Error>)
        requires
            old(self).wf(),
        ensures
            final(self).wf(),
            r is Ok,
            final(self)@ == spec_submit(old(self)@, change@),
    {
        let ghost c = change@;
        let ghost s0 = self@;
        let ghost vals = seq![c.package_purl] + c.purls.map_values(
            |e: (Seq<char>, PurlView)| e.1,
        );
        let Change { sbom, package, package_purl, purls, dependencies } = change;
        let key = sbom.purl.clone();
        let _ = self.sbom(sbom);
        let _ = self.package(key, package);
        let _ = self.purl(package_purl);
        proof {
            let t1 = vals.take(1);
            assert(t1.len() == 1);
            assert(t1.drop_last() =~= Seq::<PurlView>::empty());
            assert(t1.last() == vals[0]);
            assert(vals[0] == c.package_purl);
            assert(merge_purl_seq(s0.purls, Seq::<PurlView>::empty()) == s0.purls);
            assert(merge_purl_seq(s0.purls, t1) == merge_purl(s0.purls, c.package_purl));
            assert(self@.purls == merge_purl_seq(s0.purls, vals.take(1)));
        }
        let n = purls.len();
        let mut i: usize = 0;
        while i < n
            invariant
                i <= n,
                n == purls@.len(),
                c.purls == purls@,
                vals == seq![c.package_purl] + c.purls.map_values(|e: (Seq<char>, PurlView)| e.1),
                self.wf(),
                self@.sboms == merge_sbom(s0.sboms, c.sbom),
                self@.packages == merge_package(s0.packages, c.sbom.purl, c.package),
                self@.purls == merge_purl_seq(s0.purls, vals.take(1 + i as int)),
                self@.dependencies == s0.dependencies,
                self@.unsupported == s0.unsupported,
            decreases n - i,
        {
            let v = purls.value_at(i).clone();
            proof {
                assert(vals.take(2 + i as int).drop_last() =~= vals.take(1 + i as int));
                assert(vals.take(2 + i as int).last() == vals[1 + i as int]);
                assert(vals[1 + i as int] == v@);
            }
            let _ = self.purl(v);
            i += 1;
        }
        proof {
            assert(vals.take(1 + n as int) =~= vals);
        }
        let m = dependencies.len();
        let mut j: usize = 0;
        while j < m
            invariant
                j <= m,
                m == dependencies@.len(),
                c.dependencies == dependencies@,
                self.wf(),
                self@.sboms == merge_sbom(s0.sboms, c.sbom),
                self@.packages == merge_package(s0.packages, c.sbom.purl, c.package),
                self@.purls == merge_purl_seq(s0.purls, vals),
                self@.dependencies == merge_dependency_seq(
                    s0.dependencies,
                    c.dependencies.take(j as int),
                ),
                self@.unsupported == s0.unsupported,
            decreases m - j,
        {
            let k = dependencies.key_at(j).clone();
            let v = dependencies.value_at(j).clone();
            proof {
                assert(c.dependencies.take(j + 1).drop_last() =~= c.dependencies.take(j as int));
                assert(c.dependencies.take(j + 1).last() == c.dependencies[j as int]);
            }
            let _ = self.dependencies(k, v);
            j += 1;
        }
        proof {
            assert(c.dependencies.take(m as int) =~= c.dependencies);
            assert(self@ =~= spec_submit(s0, c));
        }
        Ok(())
    }

    /// Tracks an SBOM and all its parts: resolves the primary package,
    /// its identity and the dependency set, and only then merges the
    /// fully validated change, atomically from the caller's perspective —
    /// a rejected submission leaves the store exactly as it was.
    pub fn track(&mut self, sbom: Sbom, package_manager: String, xref: Xref) -> (r: Result<
        (),
        Error,
    >)
        requires
            old(self).wf(),
        ensures
            final(self).wf(),
            r is Ok <==> track_accepted(sbom@.bom),
            r is Ok ==> final(self)@ == spec_submit(
                old(self)@,
                change_of(sbom@, package_manager@, xref@),
            ),
            r is Err ==> final(self)@ == old(self)@,
            sbom@.bom.component is None ==> (r matches Err(e) && e matches Error::Snyk(m) && m@
                == "bom_component_none"@),
            (sbom@.bom.component matches Some(c) && (derived_purl(c) is None || !all_derivable(
                comps(sbom@.bom),
            ))) ==> (r matches Err(e) && e matches Error::Entity(m) && m@
                == "component_purl_none"@),
    {
        let package = match self.resolve_package(&package_manager, &sbom.bom, &xref) {
            Ok(p) => p,
            Err(e) => {
                return Err(e);
            },
        };
        let package_purl = match self.resolve_package_purl(&sbom.bom, &xref) {
            Ok(p) => p,
            Err(e) => {
                return Err(e);
            },
        };
        let (purls, dependencies) = match self.resolve_dependencies(
            &sbom.bom,
            &sbom.purl,
            &package_manager,
            &xref,
        ) {
            Ok(pd) => pd,
            Err(e) => {
                return Err(e);
            },
        };
        let ghost expected = change_of(sbom@, package_manager@, xref@);
        let change = Change { sbom, package, package_purl, purls, dependencies };
        proof {
            assert(change@ =~= expected);
        }
        self.submit(change)
    }

    /// The tracked SBOM under a purl, or nothing.
    pub fn get_sbom<'a>(&'a self, purl: &str) -> (r: Option<&'a Sbom>)
        requires
            self.wf(),
        ensures
            match r {
                Some(v) => seq_has_key(self@.sboms, purl@) && v@ == seq_lookup(self@.sboms, purl@),
                None => !seq_has_key(self@.sboms, purl@),
            },
    {
        self.sboms.get(purl)
    }

    /// The tracked identity under a purl, or nothing.
    pub fn get_purl<'a>(&'a self, purl: &str) -> (r: Option<&'a Purl>)
        requires
            self.wf(),
        ensures
            match r {
                Some(v) => seq_has_key(self@.purls, purl@) && v@ == seq_lookup(self@.purls, purl@),
                None => !seq_has_key(self@.purls, purl@),
            },
    {
        self.purls.get(purl)
    }

    /// The tracked package under a purl, or nothing.
    pub fn get_package<'a>(&'a self, purl: &str) -> (r: Option<&'a Package>)
        requires
            self.wf(),
        ensures
            match r {
                Some(v) => seq_has_key(self@.packages, purl@) && v@ == seq_lookup(
                    self@.packages,
                    purl@,
                ),
                None => !seq_has_key(self@.packages, purl@),
            },
    {
        self.packages.get(purl)
    }

    /// The tracked dependency under a purl, or nothing.
    pub fn get_dependency<'a>(&'a self, purl: &str) -> (r: Option<&'a Dependency>)
        requires
            self.wf(),
        ensures
            match r {
                Some(v) => seq_has_key(self@.dependencies, purl@) && v@ == seq_lookup(
                    self@.dependencies,
                    purl@,
                ),
                None => !seq_has_key(self@.dependencies, purl@),
            },
    {
        self.dependencies.get(purl)
    }

    /// The tracked unsupported entry under an external id, or nothing.
    pub fn get_unsupported<'a>(&'a self, external_id: &str) -> (r: Option<&'a Unsupported>)
        requires
            self.wf(),
        ensures
            match r {
                Some(v) => seq_has_key(self@.unsupported, external_id@) && v@ == seq_lookup(
                    self@.unsupported,
                    external_id@,
                ),
                None => !seq_has_key(self@.unsupported, external_id@),
            },
    {
        self.unsupported.get(external_id)
    }

    /// How many SBOMs the run tracks.
    pub fn sbom_count(&self) -> (n: usize)
        ensures
            n == self@.sboms.len(),
    {
        self.sboms.len()
    }

    /// How many identities the run tracks.
    pub fn purl_count(&self) -> (n: usize)
        ensures
            n == self@.purls.len(),
    {
        self.purls.len()
    }

    /// How many packages the run tracks.
    pub fn package_count(&self) -> (n: usize)
        ensures
            n == self@.packages.len(),
    {
        self.packages.len()
    }

    /// How many dependencies the run tracks.
    pub fn dependency_count(&self) -> (n: usize)
        ensures
            n == self@.dependencies.len(),
    {
        self.dependencies.len()
    }

    /// How many unsupported entries the run tracks.
    pub fn unsupported_count(&self) -> (n: usize)
        ensures
            n == self@.unsupported.len(),
    {
        self.unsupported.len()
    }
}

} // verus!
