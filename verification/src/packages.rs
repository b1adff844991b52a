//! The package-side entities: canonical identifiers, packages,
//! dependencies and unsupported entries.
//!
//! The canonical identity of a package is its package-url string. A
//! component that supplies an explicit, non-empty purl keeps it; otherwise
//! one is built from its package-manager hint, name and version; a
//! component with neither has no derivable identity and is rejected,
//! because a malformed key would corrupt deduplication.

use vstd::prelude::*;
use vstd::string::StringExecFns;
use crate::Error;
use crate::cyclonedx::Component;
use crate::cyclonedx::ComponentView;
use crate::sboms::SbomProviderKind;
use crate::sboms::SbomProviderKindView;
use crate::strings::clone_opt_string;
use crate::xrefs::Xref;
use crate::xrefs::XrefView;
use crate::xrefs::clone_xrefs;
use crate::xrefs::xref_seq_view;

verus! {

/// The role a component plays: the BOM's primary subject, or a dependency
/// listed inside it.
#[derive(Clone, Copy, Debug, PartialEq, Eq, Structural)]
pub enum ComponentKind {
    Package,
    Dependency,
}

/// True when an optional string is present and non-empty.
pub open spec fn nonempty_opt(o: Option<Seq<char>>) -> bool {
    match o {
        Some(s) => s.len() > 0,
        None => false,
    }
}

/// The package-url built from a component's package-manager hint, name
/// and (when present and non-empty) version.
pub open spec fn built_purl(c: ComponentView) -> Seq<char> {
    let pm = match c.package_manager {
        Some(m) => m,
        None => Seq::empty(),
    };
    let base = "pkg:"@ + pm + "/"@ + c.name;
    match c.version {
        Some(v) => if v.len() > 0 {
            base + "@"@ + v
        } else {
            base
        },
        None => base,
    }
}

/// The canonical package-url a component resolves to, if any: an explicit
/// non-empty purl is kept as supplied; otherwise one is built from the
/// package-manager hint and a non-empty name; a component with neither
/// has no identity.
pub open spec fn derived_purl(c: ComponentView) -> Option<Seq<char>> {
    if nonempty_opt(c.purl) {
        c.purl
    } else if c.name.len() > 0 && nonempty_opt(c.package_manager) {
        Some(built_purl(c))
    } else {
        None
    }
}

/// Derives the canonical package-url string of a component.
fn derive_purl_string(c: &Component) -> (r: Option<String>)
    ensures
        r.deep_view() == derived_purl(c@),
{
    match &c.purl {
        Some(p) => {
            if !p.as_str().is_empty() {
                return Some(p.clone());
            }
        },
        None => {},
    }
    let has_name = !c.name.as_str().is_empty();
    match &c.package_manager {
        Some(m) => {
            if has_name && !m.as_str().is_empty() {
                let mut s = "pkg:".to_owned();
                s.append(m.as_str());
                s.append("/");
                s.append(c.name.as_str());
                match &c.version {
                    Some(v) => {
                        if !v.as_str().is_empty() {
                            s.append("@");
                            s.append(v.as_str());
                        }
                    },
                    None => {},
                }
                proof {
                    assert(s@ =~= built_purl(c@));
                }
                Some(s)
            } else {
                None
            }
        },
        None => None,
    }
}

/// A canonical, string-keyed identity record for a software package,
/// tagged with the role the package played in its BOM.
pub struct Purl {
    /// The canonical package-url string.
    pub purl: String,
    /// Whether the identity names a primary package or a dependency.
    pub kind: ComponentKind,
    /// Which external systems asserted this identity.
    pub xrefs: Vec<Xref>,
}

/// Mathematical value of a [`Purl`].
#[verifier::ext_equal]
pub ghost struct PurlView {
    pub purl: Seq<char>,
    pub kind: ComponentKind,
    pub xrefs: Seq<XrefView>,
}

impl View for Purl {
    type V = PurlView;

    open spec fn view(&self) -> PurlView {
        PurlView { purl: self.purl@, kind: self.kind, xrefs: xref_seq_view(self.xrefs@) }
    }
}

impl Clone for Purl {
    fn clone(&self) -> (r: Self)
        ensures
            r@ == self@,
    {
        let r = Purl { purl: self.purl.clone(), kind: self.kind, xrefs: clone_xrefs(&self.xrefs) };
        proof {
            assert(r@ =~= self@);
        }
        r
    }
}

impl Purl {
    /// Resolves a component to its canonical identity, tagged with its
    /// role and carrying the submission's provenance; rejects a component
    /// whose package-url cannot be derived.
    pub fn from_component(component: &Component, kind: ComponentKind, xref: &Xref) -> (r: Result<
        Purl,
        Error,
    >)
        ensures
            r is Ok <==> derived_purl(component@) is Some,
            r matches Ok(p) ==> p@ == (PurlView {
                purl: derived_purl(component@).unwrap(),
                kind: kind,
                xrefs: seq![xref@],
            }),
            r matches Err(e) ==> e matches Error::Entity(m) && m@ == "component_purl_none"@,
    {
        match derive_purl_string(component) {
            None => Err(Error::Entity("component_purl_none".to_owned())),
            Some(purl) => {
                let mut xrefs: Vec<Xref> = Vec::new();
                xrefs.push(xref.clone());
                let p = Purl { purl, kind, xrefs };
                proof {
                    assert(xref_seq_view(p.xrefs@) =~= seq![xref@]);
                }
                Ok(p)
            },
        }
    }
}

/// The primary package a BOM submission describes.
pub struct Package {
    /// The canonical package-url of the package.
    pub purl: String,
    /// The provider the package was extracted from.
    pub provider: SbomProviderKind,
    /// The package-manager hint supplied with the submission.
    pub package_manager: Option<String>,
    /// Which external systems contributed this package.
    pub xrefs: Vec<Xref>,
}

/// Mathematical value of a [`Package`].
#[verifier::ext_equal]
pub ghost struct PackageView {
    pub purl: Seq<char>,
    pub provider: SbomProviderKindView,
    pub package_manager: Option<Seq<char>>,
    pub xrefs: Seq<XrefView>,
}

impl View for Package {
    type V = PackageView;

    open spec fn view(&self) -> PackageView {
        PackageView {
            purl: self.purl@,
            provider: self.provider@,
            package_manager: self.package_manager.deep_view(),
            xrefs: xref_seq_view(self.xrefs@),
        }
    }
}

impl Clone for Package {
    fn clone(&self) -> (r: Self)
        ensures
            r@ == self@,
    {
        let r = Package {
            purl: self.purl.clone(),
            provider: self.provider.clone(),
            package_manager: clone_opt_string(&self.package_manager),
            xrefs: clone_xrefs(&self.xrefs),
        };
        proof {
            assert(r@ =~= self@);
        }
        r
    }
}

impl Package {
    /// Resolves the primary package of a BOM: rejects a document without
    /// a primary component, or one whose package-url cannot be derived.
    pub fn from_bom(
        bom: &crate::cyclonedx::Bom,
        provider: SbomProviderKind,
        package_manager: Option<String>,
        xref: &Xref,
    ) -> (r: Result<Package, Error>)
        ensures
            r is Ok <==> (bom@.component matches Some(c) && derived_purl(c) is Some),
            bom@.component is None ==> (r matches Err(e) && e matches Error::Snyk(m) && m@
                == "bom_component_none"@),
            (bom@.component matches Some(c) && derived_purl(c) is None) ==> (r matches Err(e)
                && e matches Error::Entity(m) && m@ == "component_purl_none"@),
            r matches Ok(p) ==> p@ == (PackageView {
                purl: derived_purl(bom@.component.unwrap()).unwrap(),
                provider: provider@,
                package_manager: package_manager.deep_view(),
                xrefs: seq![xref@],
            }),
    {
        let component = match bom.component() {
            None => {
                return Err(Error::Snyk("bom_component_none".to_owned()));
            },
            Some(c) => c,
        };
        match derive_purl_string(component) {
            None => Err(Error::Entity("component_purl_none".to_owned())),
            Some(purl) => {
                let mut xrefs: Vec<Xref> = Vec::new();
                xrefs.push(xref.clone());
                let p = Package { purl, provider, package_manager, xrefs };
                proof {
                    assert(xref_seq_view(p.xrefs@) =~= seq![xref@]);
                }
                Ok(p)
            },
        }
    }
}

/// A dependency listed inside a BOM, tied to its owning package by that
/// package's canonical package-url.
pub struct Dependency {
    /// The canonical package-url of the dependent component.
    pub purl: String,
    /// The package-url of the owning package.
    pub package_ref: String,
    /// The provider the dependency was extracted from.
    pub provider: SbomProviderKind,
    /// The package-manager hint supplied with the submission.
    pub package_manager: Option<String>,
    /// Which external systems contributed this dependency.
    pub xrefs: Vec<Xref>,
}

/// Mathematical value of a [`Dependency`].
#[verifier::ext_equal]
pub ghost struct DependencyView {
    pub purl: Seq<char>,
    pub package_ref: Seq<char>,
    pub provider: SbomProviderKindView,
    pub package_manager: Option<Seq<char>>,
    pub xrefs: Seq<XrefView>,
}

impl View for Dependency {
    type V = DependencyView;

    open spec fn view(&self) -> DependencyView {
        DependencyView {
            purl: self.purl@,
            package_ref: self.package_ref@,
            provider: self.provider@,
            package_manager: self.package_manager.deep_view(),
            xrefs: xref_seq_view(self.xrefs@),
        }
    }
}

impl Clone for Dependency {
    fn clone(&self) -> (r: Self)
        ensures
            r@ == self@,
    {
        let r = Dependency {
            purl: self.purl.clone(),
            package_ref: self.package_ref.clone(),
            provider: self.provider.clone(),
            package_manager: clone_opt_string(&self.package_manager),
            xrefs: clone_xrefs(&self.xrefs),
        };
        proof {
            assert(r@ =~= self@);
        }
        r
    }
}

impl Dependency {
    /// Resolves a sub-component to a dependency of the package identified
    /// by `package_ref`; rejects a component whose package-url cannot be
    /// derived.
    pub fn from_component(
        component: &Component,
        provider: SbomProviderKind,
        package_ref: String,
        package_manager: Option<String>,
        xref: &Xref,
    ) -> (r: Result<Dependency, Error>)
        ensures
            r is Ok <==> derived_purl(component@) is Some,
            r matches Ok(d) ==> d@ == (DependencyView {
                purl: derived_purl(component@).unwrap(),
                package_ref: package_ref@,
                provider: provider@,
                package_manager: package_manager.deep_view(),
                xrefs: seq![xref@],
            }),
            r matches Err(e) ==> e matches Error::Entity(m) && m@ == "component_purl_none"@,
    {
        match derive_purl_string(component) {
            None => Err(Error::Entity("component_purl_none".to_owned())),
            Some(purl) => {
                let mut xrefs: Vec<Xref> = Vec::new();
                xrefs.push(xref.clone());
                let d = Dependency { purl, package_ref, provider, package_manager, xrefs };
                proof {
                    assert(xref_seq_view(d.xrefs@) =~= seq![xref@]);
                }
                Ok(d)
            },
        }
    }
}

/// A component the system explicitly could not classify into the normal
/// package/dependency model, tracked by the identifier its provider
/// assigned to it.
pub struct Unsupported {
    /// The provider-assigned identifier; an entry without one cannot be
    /// tracked and is rejected.
    pub external_id: Option<String>,
    /// Why the component could not be classified.
    pub reason: Option<String>,
    /// Which external systems reported this entry.
    pub xrefs: Vec<Xref>,
}

/// Mathematical value of an [`Unsupported`].
#[verifier::ext_equal]
pub ghost struct UnsupportedView {
    pub external_id: Option<Seq<char>>,
    pub reason: Option<Seq<char>>,
    pub xrefs: Seq<XrefView>,
}

impl View for Unsupported {
    type V = UnsupportedView;

    open spec fn view(&self) -> UnsupportedView {
        UnsupportedView {
            external_id: self.external_id.deep_view(),
            reason: self.reason.deep_view(),
            xrefs: xref_seq_view(self.xrefs@),
        }
    }
}

impl Clone for Unsupported {
    fn clone(&self) -> (r: Self)
        ensures
            r@ == self@,
    {
        let r = Unsupported {
            external_id: clone_opt_string(&self.external_id),
            reason: clone_opt_string(&self.reason),
            xrefs: clone_xrefs(&self.xrefs),
        };
        proof {
            assert(r@ =~= self@);
        }
        r
    }
}

} // verus!
