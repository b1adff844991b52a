use harbor::client::{
    issues_url, orgs_url, projects_url, require_response, sbom_response, sbom_url, Client,
    SbomFormat,
};

#[test]
fn orgs_url_is_the_v1_orgs_route() {
    assert_eq!(orgs_url(), "https://snyk.io/api/v1/orgs");
}

#[test]
fn projects_url_pins_the_api_version() {
    assert_eq!(
        projects_url("org-1"),
        "https://api.snyk.io/rest/orgs/org-1/projects?version=2023-03-08~beta"
    );
}

#[test]
fn issues_url_percent_encodes_the_purl() {
    // The raw purl contains ':', '/' and '@'; all three must arrive encoded.
    assert_eq!(
        issues_url("org-1", "pkg:npm/left-pad@1.3.0"),
        "https://api.snyk.io/rest/orgs/org-1/packages/pkg%3Anpm%2Fleft-pad%401.3.0/issues?version=2023-03-08~beta"
    );
}

#[test]
fn sbom_url_encodes_the_format() {
    assert_eq!(
        sbom_url("org-1", "proj-1", SbomFormat::CycloneDxJson),
        "https://api.snyk.io/rest/orgs/org-1/projects/proj-1/sbom?version=2023-03-08~beta&format=cyclonedx%2Bjson"
    );
}

#[test]
fn sbom_format_query_forms() {
    assert_eq!(SbomFormat::CycloneDxJson.to_string(), "cyclonedx%2Bjson");
    assert_eq!(SbomFormat::CycloneDxXml.to_string(), "cyclonedx%2Bxml");
    assert_eq!(SbomFormat::SpdxJson.to_string(), "spdx2.3%2Bjson");
}

#[test]
fn client_builds_its_authorization_header() {
    let client = Client::new("abc123".to_string());
    assert_eq!(client.token(), "token abc123");
}

#[test]
fn absent_responses_become_runtime_errors() {
    assert_eq!(
        require_response(Some(7u32), "snyk failed to list orgs").unwrap(),
        7
    );
    match require_response::<u32>(None, "snyk failed to list orgs") {
        Err(harbor::Error::Runtime(message)) => assert_eq!(message, "snyk failed to list orgs"),
        _ => panic!("an absent response must be a runtime error"),
    }
}

#[test]
fn sbom_downloads_are_classified_by_status_and_body() {
    match sbom_response(503, "unavailable".to_string()) {
        Err(harbor::Error::Runtime(message)) => {
            assert_eq!(message, "remote returned error: unavailable")
        }
        _ => panic!("a non-OK status must be a runtime error"),
    }
    assert!(sbom_response(200, String::new()).unwrap().is_none());
    assert_eq!(
        sbom_response(200, "document".to_string()).unwrap().as_deref(),
        Some("document")
    );
}
