use oai_harvest::request::{build_url, formats_url, sets_url, validate_repository, ConfigError, HarvestSpec};

fn spec(set: Option<&str>, from: Option<&str>, until: Option<&str>) -> HarvestSpec {
    HarvestSpec {
        repository: "https://example.org/oai".to_string(),
        metadata_prefix: "oai_dc".to_string(),
        set: set.map(|s| s.to_string()),
        from: from.map(|s| s.to_string()),
        until: until.map(|s| s.to_string()),
    }
}

#[test]
fn first_page_with_prefix_only() {
    let url = build_url(&spec(None, None, None), None);
    assert_eq!(url, "https://example.org/oai?verb=ListRecords&metadataPrefix=oai_dc");
}

#[test]
fn first_page_parameters_in_fixed_order() {
    let url = build_url(&spec(Some("math"), Some("2020-01-01"), Some("2021-12-31")), None);
    assert_eq!(
        url,
        "https://example.org/oai?verb=ListRecords&metadataPrefix=oai_dc&set=math&from=2020-01-01&until=2021-12-31"
    );
}

#[test]
fn absent_optional_parameters_are_omitted() {
    let url = build_url(&spec(None, None, Some("2021-12-31")), None);
    assert_eq!(url, "https://example.org/oai?verb=ListRecords&metadataPrefix=oai_dc&until=2021-12-31");
    assert!(!url.contains("&set="));
    assert!(!url.contains("&from="));
}

#[test]
fn token_request_carries_token_alone() {
    let url = build_url(&spec(Some("math"), Some("2020-01-01"), None), Some("T1"));
    assert_eq!(url, "https://example.org/oai?verb=ListRecords&resumptionToken=T1");
    assert!(!url.contains("metadataPrefix"));
    assert!(!url.contains("set="));
}

#[test]
fn token_is_percent_encoded() {
    let url = build_url(&spec(None, None, None), Some("a/b=c&d e"));
    assert_eq!(url, "https://example.org/oai?verb=ListRecords&resumptionToken=a%2Fb%3Dc%26d%20e");
}

#[test]
fn first_page_values_are_not_escaped() {
    let url = build_url(&spec(Some("a:b"), None, None), None);
    assert_eq!(url, "https://example.org/oai?verb=ListRecords&metadataPrefix=oai_dc&set=a:b");
}

#[test]
fn malformed_repository_is_rejected() {
    assert_eq!(validate_repository("not a url"), Err(ConfigError::InvalidRepository));
    assert_eq!(validate_repository(""), Err(ConfigError::InvalidRepository));
    assert_eq!(validate_repository("https://example.org/oai"), Ok(()));
    assert_eq!(validate_repository("http://ex.org/oai"), Ok(()));
}

#[test]
fn unreserved_token_is_kept_as_is() {
    let url = build_url(&spec(None, None, None), Some("a-b_c.d~e9Z"));
    assert_eq!(url, "https://example.org/oai?verb=ListRecords&resumptionToken=a-b_c.d~e9Z");
}

#[test]
fn encoded_token_has_no_separators() {
    let url = build_url(&spec(None, None, None), Some("x?y=z&w"));
    let query = url.split_once('?').unwrap().1;
    let parts: Vec<&str> = query.split('&').collect();
    assert_eq!(parts, vec!["verb=ListRecords", "resumptionToken=x%3Fy%3Dz%26w"]);
}

#[test]
fn one_shot_request_urls() {
    assert_eq!(
        formats_url("https://example.org/oai"),
        "https://example.org/oai?verb=ListMetadataFormats"
    );
    assert_eq!(sets_url("https://example.org/oai"), "https://example.org/oai?verb=ListSets");
}

#[test]
fn empty_optional_values_are_omitted() {
    let url = build_url(&spec(Some(""), None, None), None);
    assert_eq!(url, "https://example.org/oai?verb=ListRecords&metadataPrefix=oai_dc");
    let url = build_url(&spec(Some(""), Some(""), Some("")), None);
    assert_eq!(url, "https://example.org/oai?verb=ListRecords&metadataPrefix=oai_dc");
    let url = build_url(&spec(Some(""), Some("2020-01-01"), Some("")), None);
    assert_eq!(url, "https://example.org/oai?verb=ListRecords&metadataPrefix=oai_dc&from=2020-01-01");
    assert!(!url.contains("&set="));
    assert!(!url.contains("&until="));
}
