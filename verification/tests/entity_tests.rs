use harbor::cyclonedx::{
    AggregateType, Component, ComponentType, Compositions, ReleaseNotes, Scope, Source, Tool,
};
use harbor::packages::{ComponentKind, Dependency, Package, Purl};
use harbor::sboms::SbomProviderKind;
use harbor::xrefs::{merge_xrefs, xref_eq, xrefs_contains, Xref, XrefKind};

fn provenance() -> Xref {
    Xref {
        kind: XrefKind::External("snyk".to_string()),
        identifiers: vec![("org_id".to_string(), "123".to_string())],
    }
}

#[test]
fn purl_from_component_keeps_explicit_purl() {
    let mut c = Component::new(ComponentType::Library, "left-pad".to_string());
    c.purl = Some("pkg:npm/left-pad@1.3.0".to_string());
    let purl = Purl::from_component(&c, ComponentKind::Package, &provenance()).unwrap();
    assert_eq!(purl.purl, "pkg:npm/left-pad@1.3.0");
    assert_eq!(purl.kind, ComponentKind::Package);
    assert_eq!(purl.xrefs.len(), 1);
    assert!(xref_eq(&purl.xrefs[0], &provenance()));
}

#[test]
fn purl_from_component_builds_from_parts() {
    let mut c = Component::new(ComponentType::Library, "is-number".to_string());
    c.package_manager = Some("npm".to_string());
    c.version = Some("3.0.0".to_string());
    let purl = Purl::from_component(&c, ComponentKind::Dependency, &provenance()).unwrap();
    assert_eq!(purl.purl, "pkg:npm/is-number@3.0.0");
    assert_eq!(purl.kind, ComponentKind::Dependency);
}

#[test]
fn purl_from_component_omits_empty_version() {
    let mut c = Component::new(ComponentType::Library, "is-number".to_string());
    c.package_manager = Some("npm".to_string());
    let purl = Purl::from_component(&c, ComponentKind::Dependency, &provenance()).unwrap();
    assert_eq!(purl.purl, "pkg:npm/is-number");
}

#[test]
fn purl_from_component_rejects_missing_identity() {
    let unnamed = Component::new(ComponentType::Library, String::new());
    let result = Purl::from_component(&unnamed, ComponentKind::Package, &provenance());
    match result {
        Err(harbor::Error::Entity(message)) => assert_eq!(message, "component_purl_none"),
        _ => panic!("a component without name, ecosystem or purl must be rejected"),
    }

    // A name alone is not enough without an ecosystem hint.
    let no_ecosystem = Component::new(ComponentType::Library, "is-number".to_string());
    assert!(Purl::from_component(&no_ecosystem, ComponentKind::Package, &provenance()).is_err());
}

#[test]
fn package_from_bom_requires_primary_component() {
    let bom = harbor::cyclonedx::Bom {
        component: None,
        components: None,
    };
    let result = Package::from_bom(&bom, SbomProviderKind::GitHub, None, &provenance());
    match result {
        Err(harbor::Error::Snyk(message)) => assert_eq!(message, "bom_component_none"),
        _ => panic!("a document without a primary component must be rejected"),
    }
}

#[test]
fn package_from_bom_resolves_primary() {
    let mut primary = Component::new(ComponentType::Application, "left-pad".to_string());
    primary.purl = Some("pkg:npm/left-pad@1.3.0".to_string());
    let bom = harbor::cyclonedx::Bom {
        component: Some(primary),
        components: None,
    };
    let package = Package::from_bom(
        &bom,
        SbomProviderKind::Snyk {
            api_version: "2023-03-08~beta".to_string(),
        },
        Some("npm".to_string()),
        &provenance(),
    )
    .unwrap();
    assert_eq!(package.purl, "pkg:npm/left-pad@1.3.0");
    assert_eq!(package.package_manager.as_deref(), Some("npm"));
    assert_eq!(package.xrefs.len(), 1);
}

#[test]
fn dependency_from_component_carries_owner() {
    let mut c = Component::new(ComponentType::Library, "is-number".to_string());
    c.package_manager = Some("npm".to_string());
    c.version = Some("3.0.0".to_string());
    let dependency = Dependency::from_component(
        &c,
        SbomProviderKind::GitHub,
        "pkg:npm/left-pad@1.3.0".to_string(),
        Some("npm".to_string()),
        &provenance(),
    )
    .unwrap();
    assert_eq!(dependency.purl, "pkg:npm/is-number@3.0.0");
    assert_eq!(dependency.package_ref, "pkg:npm/left-pad@1.3.0");
}

#[test]
fn xref_merge_is_additive_and_deduplicating() {
    let a = provenance();
    let b = Xref {
        kind: XrefKind::External("github".to_string()),
        identifiers: vec![("org".to_string(), "acme".to_string())],
    };
    let merged = merge_xrefs(&vec![a.clone()], &vec![a.clone(), b.clone()]);
    assert_eq!(merged.len(), 2);
    assert!(xrefs_contains(&merged, &a));
    assert!(xrefs_contains(&merged, &b));

    // Merging the same set again changes nothing.
    let again = merge_xrefs(&merged, &vec![a.clone(), b.clone()]);
    assert_eq!(again.len(), 2);
}

#[test]
fn xref_equality_is_by_value() {
    let a = provenance();
    assert!(xref_eq(&a, &a.clone()));
    let mut other = provenance();
    other.identifiers[0].1 = "456".to_string();
    assert!(!xref_eq(&a, &other));
    let codebase = Xref {
        kind: XrefKind::Codebase,
        identifiers: Vec::new(),
    };
    let product = Xref {
        kind: XrefKind::Product,
        identifiers: Vec::new(),
    };
    assert!(!xref_eq(&codebase, &product));
}

#[test]
fn component_new_sets_only_type_and_name() {
    let c = Component::new(ComponentType::Framework, "quark".to_string());
    assert_eq!(c.component_type, ComponentType::Framework);
    assert_eq!(c.name, "quark");
    assert!(c.version.is_none());
    assert!(c.package_manager.is_none());
    assert!(c.purl.is_none());
    assert!(c.scope.is_none());
}

#[test]
fn cyclonedx_constructors_and_defaults() {
    let source = Source::new();
    assert!(source.name.is_none() && source.url.is_none());

    let tool = Tool::new();
    assert!(tool.vendor.is_none() && tool.name.is_none() && tool.version.is_none());

    let notes = ReleaseNotes::new("patch".to_string());
    assert_eq!(notes.release_type, "patch");
    assert!(notes.title.is_none() && notes.aliases.is_none() && notes.tags.is_none());

    let compositions = Compositions::new(AggregateType::Incomplete);
    assert_eq!(compositions.aggregate, AggregateType::Incomplete);
    assert!(compositions.assemblies.is_none());
    assert!(compositions.dependencies.is_none());
    assert!(compositions.signature.is_none());

    assert_eq!(ComponentType::default(), ComponentType::Application);
    assert_eq!(Scope::default(), Scope::Required);
    assert_eq!(AggregateType::default(), AggregateType::Complete);
}

#[test]
fn aggregate_type_names() {
    assert_eq!(AggregateType::Complete.to_string(), "complete");
    assert_eq!(AggregateType::Incomplete.to_string(), "incomplete");
    assert_eq!(
        AggregateType::IncompleteFirstPartyOnly.to_string(),
        "incomplete_first_party_only"
    );
    assert_eq!(
        AggregateType::IncompleteThirdPartyOnly.to_string(),
        "incomplete_third_party_only"
    );
    assert_eq!(AggregateType::Unknown.to_string(), "unknown");
    assert_eq!(AggregateType::NotSpecified.to_string(), "not_specified");
}

#[test]
fn provider_kind_names() {
    assert_eq!(SbomProviderKind::GitHub.to_string(), "github");
    assert_eq!(
        SbomProviderKind::Snyk {
            api_version: "2023-03-08~beta".to_string()
        }
        .to_string(),
        "snyk::2023-03-08~beta"
    );
}
