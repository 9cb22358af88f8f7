//! Client-side core of the Delta Sharing open protocol: pagination state,
//! URL construction, response classification, and bearer-token profiles.
//!
//! The networked pieces (the actual HTTP transport) live outside this
//! library; everything here is a pure function from request state and raw
//! server responses to typed values and errors.

pub mod classify;
pub mod client;
pub mod decimal;
pub mod delta;
pub mod driver;
pub mod envelope;
pub mod error;
pub mod json;
pub mod pagination;
pub mod parquet;
pub mod profile;
pub mod query;
pub mod response;
pub mod text;
pub mod time;
pub mod urls;

pub use classify::classify;
pub use classify::classify_error;
pub use classify::table_version_from_response;
pub use client::authorization_header_value;
pub use client::resolve_share_lookup;
pub use delta::DeltaAction;
pub use delta::DeltaAddAction;
pub use delta::DeltaFileAction;
pub use delta::DeltaMetadataAction;
pub use delta::DeltaProtocolAction;
pub use delta::DeltaSingleAction;
pub use driver::Aggregator;
pub use envelope::JsonPayload;
pub use envelope::JsonValue;
pub use error::DeltaSharingError;
pub use error::ErrorKind;
pub use json::parse_json_text;
pub use json::Json;
pub use pagination::Pagination;
pub use profile::BearerToken;
pub use profile::Profile;
pub use profile::ProfileType;
pub use profile::TokenProvider;
pub use query::TableChangesQuery;
pub use query::TableDataQuery;
pub use query::TableVersionQuery;
pub use query::VersionRange;
pub use urls::all_tables_url;
pub use urls::with_pagination;
pub use urls::schema_tables_url;
pub use urls::schemas_url;
pub use urls::share_url;
pub use urls::shares_url;
pub use urls::table_changes_url;
pub use urls::table_changes_url_with;
pub use urls::table_data_url;
pub use urls::table_metadata_url;
pub use urls::table_version_url;
pub use urls::table_version_url_for;
pub use parquet::ParquetAction;
pub use parquet::ParquetFileAction;
pub use parquet::ParquetMetadataAction;
pub use parquet::ParquetProtocolAction;
pub use response::ErrorResponse;
pub use response::GetShareResponse;
pub use response::ListResponse;
pub use response::Schema;
pub use response::Share;
pub use response::Table;
pub use response::TableAction;
pub use response::TableChangesResponse;
pub use response::TableDataResponse;
pub use response::TableMetadataResponse;
pub use response::parse_actions_text;
pub use response::parse_table_changes_body;
pub use response::parse_table_data_body;
pub use response::parse_table_metadata_body;
pub use response::TableVersionResponse;
