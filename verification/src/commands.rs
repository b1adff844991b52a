//! Option types shared with the command-line front end.

use vstd::prelude::*;
use crate::strings::eq_lower;
use crate::strings::lower;

verus! {

/// Enumerates the supported enrichment providers.
#[derive(Clone, Copy, Debug)]
pub enum EnrichmentProviderKind {
    /// The Dependency Track enrichment provider.
    DependencyTrack,
    /// The Snyk enrichment provider.
    Snyk,
}

/// The provider a lower-cased name stands for, if any.
pub open spec fn provider_kind_of(l: Seq<char>) -> Option<EnrichmentProviderKind> {
    if l == "dependencytrack"@ || l == "dependency-track"@ || l == "d"@ || l == "dt"@ {
        Some(EnrichmentProviderKind::DependencyTrack)
    } else if l == "snyk"@ || l == "s"@ {
        Some(EnrichmentProviderKind::Snyk)
    } else {
        None
    }
}

impl EnrichmentProviderKind {
    /// Parses a provider name, accepting the documented spellings in any
    /// ASCII case; every other name is rejected.
    pub fn from_str(s: &str) -> (r: Result<EnrichmentProviderKind, ()>)
        ensures
            match provider_kind_of(lower(s@)) {
                Some(k) => (r matches Ok(v) && v == k),
                None => r is Err,
            },
    {
        if eq_lower(s, "dependencytrack") || eq_lower(s, "dependency-track") || eq_lower(s, "d")
            || eq_lower(s, "dt") {
            Ok(EnrichmentProviderKind::DependencyTrack)
        } else if eq_lower(s, "snyk") || eq_lower(s, "s") {
            Ok(EnrichmentProviderKind::Snyk)
        } else {
            Err(())
        }
    }
}

/// Enumerates the provider types a scan can start.
pub enum ProviderKind {
    /// The GitHub provider.
    GitHub,
    /// The Snyk provider.
    Snyk,
}

/// Allows specifying the output format.
#[derive(Clone, Copy, Debug, PartialEq, Eq, Structural)]
pub enum OutputFormat {
    /// Output as JSON.
    Json,
    /// Output as plain text.
    Text,
}

/// Options for starting a provider scan.
pub struct ProviderOpts {
    /// The type of provider to start.
    pub provider: ProviderKind,
    /// The output format, when one was chosen.
    pub output_format: Option<OutputFormat>,
    /// The organization containing the scan targets.
    pub org: Option<String>,
}

impl ProviderOpts {
    /// The chosen output format, defaulting to plain text.
    pub fn format(&self) -> (r: OutputFormat)
        ensures
            r == match self.output_format {
                Some(f) => f,
                None => OutputFormat::Text,
            },
    {
        match self.output_format {
            None => OutputFormat::Text,
            Some(f) => f,
        }
    }
}

} // verus!
