use delta_sharing::table_changes_url_with;
use delta_sharing::TableDataQuery;
use delta_sharing::TableChangesQuery;
use delta_sharing::TableVersionQuery;
use delta_sharing::VersionRange;

#[test]
fn default_table_version_query() {
    let default_table_version = TableVersionQuery::default();
    assert_eq!(default_table_version, TableVersionQuery::Latest);
}

#[test]
fn table_version_query_from_datetime() {
    let ts: i64 = 1627776000;
    let table_version = TableVersionQuery::from(ts);
    assert_eq!(table_version, TableVersionQuery::Timestamp(ts));
}

#[test]
fn parse_table_version_query() {
    let parsed_table_version = "latest".parse::<TableVersionQuery>().unwrap();
    assert_eq!(parsed_table_version, TableVersionQuery::Latest);

    let parsed_table_version = "2021-08-01T00:00:00Z".parse::<TableVersionQuery>().unwrap();
    assert_eq!(parsed_table_version, TableVersionQuery::Timestamp(1627776000));

    let parse_err = "nonsense".parse::<TableVersionQuery>().unwrap_err();
    assert_eq!(
        parse_err.message(),
        "Cannot parse TableVersionQuery. The string must be either `latest` or a timestamp in ISO8601 format like `2021-08-01T00:00:00Z`."
    );
}

#[test]
fn parse_table_version_query_ignores_case() {
    let parsed = "LaTeSt".parse::<TableVersionQuery>().unwrap();
    assert_eq!(parsed, TableVersionQuery::Latest);
}

#[test]
fn table_version_query_to_timestamp() {
    let table_version = TableVersionQuery::Timestamp(1627776000);
    assert_eq!(table_version.to_timestamp(), Some("2021-08-01T00:00:00Z".to_string()));

    let table_version = TableVersionQuery::Latest;
    assert_eq!(table_version.to_timestamp(), None);
}

#[test]
fn version_range_constructors() {
    assert_eq!(
        VersionRange::new_number(3, Some(7)),
        VersionRange::Number { start: 3, end: Some(7) }
    );
    assert_eq!(
        VersionRange::new_timestamp(1627776000, None),
        VersionRange::Timestamp { start: 1627776000, end: None }
    );
}

#[test]
fn empty_data_query_body() {
    let q = TableDataQuery::new();
    assert_eq!(q.to_json_body(), "{}");
}

#[test]
fn data_query_body_emits_set_fields_in_order() {
    let mut q = TableDataQuery::new();
    q.predicate_hints = Some("col = \"x\"".to_owned());
    q.limit_hint = Some(5);
    q.starting_version = Some(7);
    assert_eq!(
        q.to_json_body(),
        r#"{"predicateHints":"col = \"x\"","limitHint":5,"startingVersion":7}"#
    );

    let mut q = TableDataQuery::new();
    q.timestamp = Some("2021-08-01T00:00:00Z".to_owned());
    q.version = Some(3);
    assert_eq!(q.to_json_body(), r#"{"version":3,"timestamp":"2021-08-01T00:00:00Z"}"#);
}

#[test]
fn data_query_body_escapes_control_characters() {
    let mut q = TableDataQuery::new();
    q.predicate_hints = Some("a\nb\u{1}".to_owned());
    assert_eq!(q.to_json_body(), "{\"predicateHints\":\"a\\nb\\u0001\"}");
}

#[test]
fn changes_url_carries_the_query() {
    let q = TableChangesQuery::new(VersionRange::new_number(0, Some(2)))
        .with_historical_metadata(true);
    assert_eq!(
        table_changes_url_with("https://host/", "s", "sc", "t", &q),
        "https://host/shares/s/schemas/sc/tables/t/changes?startingVersion=0&endingVersion=2&includeHistoricalMetadata=true"
    );

    let q = TableChangesQuery::new(VersionRange::new_timestamp(1627776000, None));
    assert_eq!(
        table_changes_url_with("https://host/", "s", "sc", "t", &q),
        "https://host/shares/s/schemas/sc/tables/t/changes?startingTimestamp=2021-08-01T00%3A00%3A00Z"
    );
}

#[test]
fn table_changes_query_builder() {
    let q = TableChangesQuery::new(VersionRange::new_number(0, None));
    assert_eq!(q.include_historical_metadata, None);
    let q = q.with_historical_metadata(true);
    assert_eq!(q.include_historical_metadata, Some(true));
    assert_eq!(q.range, VersionRange::Number { start: 0, end: None });
}
