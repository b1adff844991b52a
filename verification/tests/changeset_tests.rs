use harbor::changeset::ChangeSet;
use harbor::client::SbomFormat;
use harbor::cyclonedx::{Bom, Component, ComponentType};
use harbor::packages::Unsupported;
use harbor::sboms::{Sbom, SbomProviderKind};
use harbor::xrefs::{xref_eq, Xref, XrefKind};

fn xref(system: &str, pairs: &[(&str, &str)]) -> Xref {
    Xref {
        kind: XrefKind::External(system.to_string()),
        identifiers: pairs
            .iter()
            .map(|(k, v)| (k.to_string(), v.to_string()))
            .collect(),
    }
}

fn component(name: &str, version: &str, purl: &str) -> Component {
    Component {
        component_type: ComponentType::Library,
        name: name.to_string(),
        version: Some(version.to_string()),
        package_manager: Some("npm".to_string()),
        purl: Some(purl.to_string()),
        scope: None,
    }
}

fn left_pad_sbom(sub_components: Vec<Component>) -> Sbom {
    Sbom {
        purl: "pkg:npm/left-pad@1.3.0".to_string(),
        bom: Bom {
            component: Some(component("left-pad", "1.3.0", "pkg:npm/left-pad@1.3.0")),
            components: Some(sub_components),
        },
        format: SbomFormat::CycloneDxJson,
        provider: SbomProviderKind::Snyk {
            api_version: "2023-03-08~beta".to_string(),
        },
        xrefs: Vec::new(),
    }
}

fn github_xref() -> Xref {
    xref("github", &[("org", "acme"), ("repo", "demo")])
}

fn snyk_xref() -> Xref {
    xref("snyk", &[("org_id", "123")])
}

#[test]
fn track_primary_package_and_dependency() {
    let mut cs = ChangeSet::new();
    let sbom = left_pad_sbom(vec![component(
        "is-number",
        "3.0.0",
        "pkg:npm/is-number@3.0.0",
    )]);
    cs.track(sbom, "npm".to_string(), github_xref()).unwrap();

    let package = cs.get_package("pkg:npm/left-pad@1.3.0").unwrap();
    assert_eq!(package.purl, "pkg:npm/left-pad@1.3.0");
    assert_eq!(package.xrefs.len(), 1);
    assert!(xref_eq(&package.xrefs[0], &github_xref()));

    let dependency = cs.get_dependency("pkg:npm/is-number@3.0.0").unwrap();
    assert_eq!(dependency.package_ref, "pkg:npm/left-pad@1.3.0");
    assert_eq!(dependency.purl, "pkg:npm/is-number@3.0.0");

    assert!(cs.get_purl("pkg:npm/left-pad@1.3.0").is_some());
    assert!(cs.get_purl("pkg:npm/is-number@3.0.0").is_some());
    assert!(cs.get_sbom("pkg:npm/left-pad@1.3.0").is_some());
    assert_eq!(cs.package_count(), 1);
    assert_eq!(cs.dependency_count(), 1);
    assert_eq!(cs.purl_count(), 2);
    assert_eq!(cs.sbom_count(), 1);
}

#[test]
fn second_provenance_unions_cross_references() {
    let mut cs = ChangeSet::new();
    cs.track(left_pad_sbom(Vec::new()), "npm".to_string(), github_xref())
        .unwrap();
    cs.track(left_pad_sbom(Vec::new()), "npm".to_string(), snyk_xref())
        .unwrap();

    assert_eq!(cs.package_count(), 1);
    let package = cs.get_package("pkg:npm/left-pad@1.3.0").unwrap();
    assert_eq!(package.purl, "pkg:npm/left-pad@1.3.0");
    assert_eq!(package.xrefs.len(), 2);
    assert!(xref_eq(&package.xrefs[0], &github_xref()));
    assert!(xref_eq(&package.xrefs[1], &snyk_xref()));
}

#[test]
fn resubmission_is_idempotent() {
    let mut cs = ChangeSet::new();
    let deps = || vec![component("is-number", "3.0.0", "pkg:npm/is-number@3.0.0")];
    cs.track(left_pad_sbom(deps()), "npm".to_string(), github_xref())
        .unwrap();
    cs.track(left_pad_sbom(deps()), "npm".to_string(), github_xref())
        .unwrap();

    assert_eq!(cs.package_count(), 1);
    assert_eq!(cs.dependency_count(), 1);
    assert_eq!(cs.purl_count(), 2);
    assert_eq!(cs.sbom_count(), 1);
    let package = cs.get_package("pkg:npm/left-pad@1.3.0").unwrap();
    assert_eq!(package.xrefs.len(), 1);
    let purl = cs.get_purl("pkg:npm/is-number@3.0.0").unwrap();
    assert_eq!(purl.xrefs.len(), 1);
}

#[test]
fn rejected_change_leaves_store_untouched() {
    let mut cs = ChangeSet::new();
    cs.track(left_pad_sbom(Vec::new()), "npm".to_string(), github_xref())
        .unwrap();

    let malformed = Component {
        component_type: ComponentType::Library,
        name: String::new(),
        version: None,
        package_manager: None,
        purl: None,
        scope: None,
    };
    let sbom = Sbom {
        purl: "pkg:npm/other@2.0.0".to_string(),
        bom: Bom {
            component: Some(component("other", "2.0.0", "pkg:npm/other@2.0.0")),
            components: Some(vec![
                component("is-number", "3.0.0", "pkg:npm/is-number@3.0.0"),
                malformed,
            ]),
        },
        format: SbomFormat::CycloneDxJson,
        provider: SbomProviderKind::Snyk {
            api_version: "2023-03-08~beta".to_string(),
        },
        xrefs: Vec::new(),
    };
    let result = cs.track(sbom, "npm".to_string(), snyk_xref());
    assert!(matches!(result, Err(harbor::Error::Entity(_))));

    // Nothing of the rejected submission was merged.
    assert_eq!(cs.package_count(), 1);
    assert_eq!(cs.dependency_count(), 0);
    assert_eq!(cs.purl_count(), 1);
    assert_eq!(cs.sbom_count(), 1);
    assert!(cs.get_package("pkg:npm/other@2.0.0").is_none());
    assert!(cs.get_dependency("pkg:npm/is-number@3.0.0").is_none());
}

#[test]
fn missing_primary_component_is_rejected() {
    let mut cs = ChangeSet::new();
    let sbom = Sbom {
        purl: "pkg:npm/left-pad@1.3.0".to_string(),
        bom: Bom {
            component: None,
            components: None,
        },
        format: SbomFormat::CycloneDxJson,
        provider: SbomProviderKind::GitHub,
        xrefs: Vec::new(),
    };
    let result = cs.track(sbom, "npm".to_string(), github_xref());
    match result {
        Err(harbor::Error::Snyk(message)) => assert_eq!(message, "bom_component_none"),
        other => panic!("expected a missing-component error, got {:?}", other),
    }
    assert_eq!(cs.sbom_count(), 0);
    assert_eq!(cs.package_count(), 0);
}

#[test]
fn dependencies_reference_present_packages() {
    let mut cs = ChangeSet::new();
    cs.track(
        left_pad_sbom(vec![
            component("is-number", "3.0.0", "pkg:npm/is-number@3.0.0"),
            component("kind-of", "3.2.2", "pkg:npm/kind-of@3.2.2"),
        ]),
        "npm".to_string(),
        github_xref(),
    )
    .unwrap();

    for purl in ["pkg:npm/is-number@3.0.0", "pkg:npm/kind-of@3.2.2"] {
        let dependency = cs.get_dependency(purl).unwrap();
        assert!(cs.get_package(&dependency.package_ref).is_some());
    }
}

#[test]
fn unsupported_requires_external_id() {
    let mut cs = ChangeSet::new();

    let empty_id = Unsupported {
        external_id: Some(String::new()),
        reason: None,
        xrefs: vec![github_xref()],
    };
    let result = cs.unsupported(empty_id);
    match result {
        Err(harbor::Error::Entity(message)) => {
            assert_eq!(message, "missing_unsupported_external_id")
        }
        _ => panic!("an empty external id must be rejected"),
    }
    assert_eq!(cs.unsupported_count(), 0);

    let absent_id = Unsupported {
        external_id: None,
        reason: None,
        xrefs: Vec::new(),
    };
    assert!(cs.unsupported(absent_id).is_err());
    assert_eq!(cs.unsupported_count(), 0);
}

#[test]
fn unsupported_merges_by_external_id() {
    let mut cs = ChangeSet::new();
    let entry = |x: Xref| Unsupported {
        external_id: Some("proj-9".to_string()),
        reason: Some("unsupported project type".to_string()),
        xrefs: vec![x],
    };
    cs.unsupported(entry(github_xref())).unwrap();
    cs.unsupported(entry(snyk_xref())).unwrap();

    assert_eq!(cs.unsupported_count(), 1);
    let stored = cs.get_unsupported("proj-9").unwrap();
    assert_eq!(stored.reason.as_deref(), Some("unsupported project type"));
    assert_eq!(stored.xrefs.len(), 2);
}

#[test]
fn lookups_return_nothing_for_unknown_keys() {
    let cs = ChangeSet::new();
    assert!(cs.get_package("pkg:npm/absent@1.0.0").is_none());
    assert!(cs.get_purl("pkg:npm/absent@1.0.0").is_none());
    assert!(cs.get_dependency("pkg:npm/absent@1.0.0").is_none());
    assert!(cs.get_sbom("pkg:npm/absent@1.0.0").is_none());
    assert!(cs.get_unsupported("absent").is_none());
}

#[test]
fn direct_package_merge_keeps_original_fields() {
    let mut cs = ChangeSet::new();
    let first = harbor::packages::Package {
        purl: "pkg:npm/a@1.0.0".to_string(),
        provider: SbomProviderKind::GitHub,
        package_manager: Some("npm".to_string()),
        xrefs: vec![github_xref()],
    };
    let second = harbor::packages::Package {
        purl: "pkg:npm/changed@9.9.9".to_string(),
        provider: SbomProviderKind::Snyk {
            api_version: "other".to_string(),
        },
        package_manager: None,
        xrefs: vec![snyk_xref()],
    };
    cs.package("pkg:npm/a@1.0.0".to_string(), first).unwrap();
    cs.package("pkg:npm/a@1.0.0".to_string(), second).unwrap();

    let stored = cs.get_package("pkg:npm/a@1.0.0").unwrap();
    // Data fields come from the original insert; only cross-references grew.
    assert_eq!(stored.purl, "pkg:npm/a@1.0.0");
    assert!(matches!(stored.provider, SbomProviderKind::GitHub));
    assert_eq!(stored.package_manager.as_deref(), Some("npm"));
    assert_eq!(stored.xrefs.len(), 2);
}

#[test]
fn sbom_body_is_immutable_after_first_insert() {
    let mut cs = ChangeSet::new();
    let mut first = left_pad_sbom(Vec::new());
    first.xrefs = vec![github_xref()];
    let mut second = left_pad_sbom(vec![component(
        "is-number",
        "3.0.0",
        "pkg:npm/is-number@3.0.0",
    )]);
    second.xrefs = vec![snyk_xref()];

    cs.sbom(first).unwrap();
    cs.sbom(second).unwrap();

    let stored = cs.get_sbom("pkg:npm/left-pad@1.3.0").unwrap();
    // The stored document is the one inserted first.
    assert!(stored.bom.components.as_ref().unwrap().is_empty());
    assert_eq!(stored.xrefs.len(), 2);
    assert_eq!(cs.sbom_count(), 1);
}
