//! Reconciliation engine for Software Bill of Materials (SBOM) submissions.
//!
//! Heterogeneous providers (repository scanners, vulnerability platforms)
//! hand over parsed BOM documents; this library folds them into a single,
//! deduplicated collection of packages, package identifiers, dependency
//! edges and unsupported entries, while keeping a full record of which
//! external system contributed each fact.

use vstd::prelude::*;

pub mod changeset;
pub mod client;
pub mod commands;
pub mod cyclonedx;
pub mod packages;
pub mod sboms;
pub mod store;
pub mod strings;
pub mod team;
pub mod time;
pub mod xrefs;

verus! {

/// Errors surfaced by the library to its callers.
///
/// Every failure is returned as a typed result; the library never panics
/// on rejected input and never logs on the caller's behalf.
#[derive(Debug)]
pub enum Error {
    /// Invalid configuration at startup.
    Config(String),
    /// An entity could not be resolved or validated.
    Entity(String),
    /// An enrichment run failed.
    Enrich(String),
    /// An invalid command-line argument.
    InvalidArg(String),
    /// A required request parameter is missing or empty.
    Parameter(String),
    /// A runtime failure reported by a collaborator.
    Runtime(String),
    /// A failure specific to the Snyk provider boundary.
    Snyk(String),
    /// The system clock could not be read.
    Time(String),
}

} // verus!
