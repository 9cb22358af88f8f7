use delta_sharing::shares_url;
use delta_sharing::share_url;
use delta_sharing::schemas_url;
use delta_sharing::all_tables_url;
use delta_sharing::schema_tables_url;
use delta_sharing::table_changes_url;
use delta_sharing::table_data_url;
use delta_sharing::table_metadata_url;
use delta_sharing::table_version_url;
use delta_sharing::table_version_url_for;
use delta_sharing::TableVersionQuery;
use delta_sharing::Pagination;

const ENDPOINT: &str = "https://sharing.delta.io/delta-sharing/";

#[test]
fn shares_url_without_pagination() {
    let url = shares_url(ENDPOINT, &Pagination::default());
    assert_eq!(url, "https://sharing.delta.io/delta-sharing/shares");
}

#[test]
fn shares_url_with_pagination() {
    let url = shares_url(ENDPOINT, &Pagination::from_token(Some(10), "tok".to_owned()));
    assert_eq!(
        url,
        "https://sharing.delta.io/delta-sharing/shares?maxResults=10&pageToken=tok"
    );

    let url = shares_url(ENDPOINT, &Pagination::from_start(Some(7)));
    assert_eq!(url, "https://sharing.delta.io/delta-sharing/shares?maxResults=7");
}

#[test]
fn share_url_encodes_the_name() {
    let url = share_url("https://host/base", "a share/100%");
    assert_eq!(url, "https://host/base/shares/a%20share%2F100%25");
}

#[test]
fn schema_and_table_listing_urls() {
    let p = Pagination::default();
    assert_eq!(
        schemas_url(ENDPOINT, "sales", &p),
        "https://sharing.delta.io/delta-sharing/shares/sales/schemas"
    );
    assert_eq!(
        all_tables_url(ENDPOINT, "sales", &p),
        "https://sharing.delta.io/delta-sharing/shares/sales/schemas/all-tables"
    );
    assert_eq!(
        schema_tables_url(ENDPOINT, "sales", "eu", &p),
        "https://sharing.delta.io/delta-sharing/shares/sales/schemas/eu/tables"
    );
}

#[test]
fn table_urls() {
    assert_eq!(
        table_version_url(ENDPOINT, "s", "sc", "t", None),
        "https://sharing.delta.io/delta-sharing/shares/s/schemas/sc/tables/t/version"
    );
    assert_eq!(
        table_version_url(ENDPOINT, "s", "sc", "t", Some("2021-08-01T00:00:00Z")),
        "https://sharing.delta.io/delta-sharing/shares/s/schemas/sc/tables/t/version?startingTimestamp=2021-08-01T00%3A00%3A00Z"
    );
    assert_eq!(
        table_metadata_url(ENDPOINT, "s", "sc", "t"),
        "https://sharing.delta.io/delta-sharing/shares/s/schemas/sc/tables/t/metadata"
    );
    assert_eq!(
        table_data_url(ENDPOINT, "s", "sc", "t"),
        "https://sharing.delta.io/delta-sharing/shares/s/schemas/sc/tables/t/query"
    );
    assert_eq!(
        table_changes_url(ENDPOINT, "s", "sc", "t"),
        "https://sharing.delta.io/delta-sharing/shares/s/schemas/sc/tables/t/changes"
    );
}

#[test]
fn version_url_for_query() {
    assert_eq!(
        table_version_url_for(ENDPOINT, "s", "sc", "t", &TableVersionQuery::Latest),
        "https://sharing.delta.io/delta-sharing/shares/s/schemas/sc/tables/t/version"
    );
    assert_eq!(
        table_version_url_for(ENDPOINT, "s", "sc", "t", &TableVersionQuery::Timestamp(1627776000)),
        "https://sharing.delta.io/delta-sharing/shares/s/schemas/sc/tables/t/version?startingTimestamp=2021-08-01T00%3A00%3A00Z"
    );
}

#[test]
fn endpoint_without_trailing_slash() {
    let url = shares_url("https://sharing.delta.io/delta-sharing", &Pagination::default());
    assert_eq!(url, "https://sharing.delta.io/delta-sharing/shares");
}

#[test]
fn non_ascii_segment_is_percent_encoded() {
    let url = share_url("https://host", "caf\u{e9}");
    assert_eq!(url, "https://host/shares/caf%C3%A9");
}
