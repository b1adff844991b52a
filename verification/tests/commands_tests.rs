use harbor::commands::{EnrichmentProviderKind, OutputFormat, ProviderKind, ProviderOpts};
use harbor::team::validate;
use harbor::time::timestamp;

#[test]
fn provider_names_parse_case_insensitively() {
    assert!(matches!(
        EnrichmentProviderKind::from_str("snyk"),
        Ok(EnrichmentProviderKind::Snyk)
    ));
    assert!(matches!(
        EnrichmentProviderKind::from_str("SNYK"),
        Ok(EnrichmentProviderKind::Snyk)
    ));
    assert!(matches!(
        EnrichmentProviderKind::from_str("s"),
        Ok(EnrichmentProviderKind::Snyk)
    ));
    assert!(matches!(
        EnrichmentProviderKind::from_str("dependencytrack"),
        Ok(EnrichmentProviderKind::DependencyTrack)
    ));
    assert!(matches!(
        EnrichmentProviderKind::from_str("Dependency-Track"),
        Ok(EnrichmentProviderKind::DependencyTrack)
    ));
    assert!(matches!(
        EnrichmentProviderKind::from_str("dt"),
        Ok(EnrichmentProviderKind::DependencyTrack)
    ));
    assert!(matches!(
        EnrichmentProviderKind::from_str("d"),
        Ok(EnrichmentProviderKind::DependencyTrack)
    ));
    assert!(EnrichmentProviderKind::from_str("other").is_err());
    assert!(EnrichmentProviderKind::from_str("").is_err());
}

#[test]
fn output_format_defaults_to_text() {
    let opts = ProviderOpts {
        provider: ProviderKind::GitHub,
        output_format: None,
        org: None,
    };
    assert_eq!(opts.format(), OutputFormat::Text);

    let opts = ProviderOpts {
        provider: ProviderKind::Snyk,
        output_format: Some(OutputFormat::Json),
        org: Some("acme".to_string()),
    };
    assert_eq!(opts.format(), OutputFormat::Json);
}

#[test]
fn team_id_validation() {
    assert!(validate(Some("team-1")).is_ok());
    assert!(matches!(validate(Some("")), Err(harbor::Error::Parameter(_))));
    assert!(matches!(validate(None), Err(harbor::Error::Parameter(_))));
}

#[test]
fn timestamp_reads_the_clock() {
    let millis = timestamp().unwrap();
    // The clock reads after the UNIX epoch on any sane system.
    assert!(millis > 0);
}
