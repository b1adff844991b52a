//! The SBOM submission entity and its provider discriminator.

use vstd::prelude::*;
use vstd::string::StringExecFns;
use crate::client::SbomFormat;
use crate::cyclonedx::Bom;
use crate::cyclonedx::BomView;
use crate::xrefs::Xref;
use crate::xrefs::XrefView;
use crate::xrefs::clone_xrefs;
use crate::xrefs::xref_seq_view;

verus! {

/// Discriminator that indicates how an SBOM was generated.
pub enum SbomProviderKind {
    /// SBOM generated from a GitHub repository.
    GitHub,
    /// SBOM extracted from the Snyk API at the given version.
    Snyk {
        /// The API version the document was fetched at.
        api_version: String,
    },
}

/// Mathematical value of a [`SbomProviderKind`].
pub ghost enum SbomProviderKindView {
    GitHub,
    Snyk { api_version: Seq<char> },
}

impl View for SbomProviderKind {
    type V = SbomProviderKindView;

    open spec fn view(&self) -> SbomProviderKindView {
        match self {
            SbomProviderKind::GitHub => SbomProviderKindView::GitHub,
            SbomProviderKind::Snyk { api_version } => SbomProviderKindView::Snyk {
                api_version: api_version@,
            },
        }
    }
}

impl Clone for SbomProviderKind {
    fn clone(&self) -> (r: Self)
        ensures
            r@ == self@,
    {
        match self {
            SbomProviderKind::GitHub => SbomProviderKind::GitHub,
            SbomProviderKind::Snyk { api_version } => SbomProviderKind::Snyk {
                api_version: api_version.clone(),
            },
        }
    }
}

impl SbomProviderKind {
    /// The display form: `github`, or `snyk::` followed by the API version.
    pub fn to_string(&self) -> (r: String)
        ensures
            self@ is GitHub ==> r@ == "github"@,
            self@ matches SbomProviderKindView::Snyk { api_version } ==> r@ == "snyk::"@
                + api_version,
    {
        match self {
            SbomProviderKind::GitHub => "github".to_owned(),
            SbomProviderKind::Snyk { api_version } => {
                let mut s = "snyk::".to_owned();
                s.append(api_version.as_str());
                s
            },
        }
    }
}

/// An SBOM submission: the provider-issued package-url of its primary
/// component, the parsed document it carries, the serialized format it
/// arrived in, the provider that produced it, and its cross-references.
pub struct Sbom {
    /// The provider-issued purl of the primary component.
    pub purl: String,
    /// The parsed BOM document.
    pub bom: Bom,
    /// The serialized format the document arrived in.
    pub format: SbomFormat,
    /// How the document was generated.
    pub provider: SbomProviderKind,
    /// Which external systems contributed this submission.
    pub xrefs: Vec<Xref>,
}

/// Mathematical value of an [`Sbom`].
#[verifier::ext_equal]
pub ghost struct SbomView {
    pub purl: Seq<char>,
    pub bom: BomView,
    pub format: SbomFormat,
    pub provider: SbomProviderKindView,
    pub xrefs: Seq<XrefView>,
}

impl View for Sbom {
    type V = SbomView;

    open spec fn view(&self) -> SbomView {
        SbomView {
            purl: self.purl@,
            bom: self.bom@,
            format: self.format,
            provider: self.provider@,
            xrefs: xref_seq_view(self.xrefs@),
        }
    }
}

impl Clone for Sbom {
    fn clone(&self) -> (r: Self)
        ensures
            r@ == self@,
    {
        let r = Sbom {
            purl: self.purl.clone(),
            bom: self.bom.clone(),
            format: self.format,
            provider: self.provider.clone(),
            xrefs: clone_xrefs(&self.xrefs),
        };
        proof {
            assert(r@ =~= self@);
        }
        r
    }
}

} // verus!
