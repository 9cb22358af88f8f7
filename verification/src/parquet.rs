//! Actions of the parquet response format.
//!
//! A table metadata, data or changes response is a sequence of JSON
//! documents, one action each: an object with a single `protocol`,
//! `metaData` or `file` member whose value holds the action's fields.

use vstd::prelude::*;

verus! {

use crate::envelope::obj_get;
use crate::envelope::obj_get_x;
use crate::envelope::opt_str_field;
use crate::envelope::opt_str_field_x;
use crate::envelope::opt_u64_field;
use crate::envelope::opt_u64_field_x;
use crate::envelope::req_str_field;
use crate::envelope::req_str_field_x;
use crate::envelope::req_str_list_field;
use crate::envelope::req_str_list_field_x;
use crate::envelope::req_u64_field;
use crate::envelope::req_u64_field_x;
use crate::envelope::string_map_of_members;
use crate::envelope::string_map_from_members;
use crate::envelope::JsonValue;
use crate::json::Json;
use crate::json::JsonView;
use crate::response::views_of;

/// One action line of a response in the parquet format.
#[derive(Debug)]
pub enum ParquetAction {
    Protocol(ParquetProtocolAction),
    Metadata(ParquetMetadataAction),
    File(ParquetFileAction),
}

impl ParquetAction {
    /// Whether the action is the protocol action.
    pub fn is_protocol(&self) -> (r: bool)
        ensures
            r == (self is Protocol),
    {
        matches!(self, ParquetAction::Protocol(_))
    }

    /// Whether the action is the metadata action.
    pub fn is_metadata(&self) -> (r: bool)
        ensures
            r == (self is Metadata),
    {
        matches!(self, ParquetAction::Metadata(_))
    }

    /// Whether the action is a file action.
    pub fn is_file(&self) -> (r: bool)
        ensures
            r == (self is File),
    {
        matches!(self, ParquetAction::File(_))
    }
}

/// Specification-level value of a [`ParquetAction`].
pub enum ParquetActionView {
    Protocol(ParquetProtocolActionView),
    Metadata(ParquetMetadataActionView),
    File(ParquetFileActionView),
}

impl View for ParquetAction {
    type V = ParquetActionView;

    open spec fn view(&self) -> ParquetActionView {
        match self {
            ParquetAction::Protocol(p) => ParquetActionView::Protocol(p@),
            ParquetAction::Metadata(m) => ParquetActionView::Metadata(m@),
            ParquetAction::File(f) => ParquetActionView::File(f@),
        }
    }
}

impl JsonValue for ParquetAction {
    /// An action line: an object holding a `protocol`, `metaData` or `file`
    /// member, tried in that order.
    open spec fn of_json(j: JsonView) -> Option<ParquetActionView> {
        match j {
            JsonView::Obj(m) => match obj_get(m, "protocol"@) {
                Some(p) => match ParquetProtocolAction::of_json(p) {
                    Some(v) => Some(ParquetActionView::Protocol(v)),
                    None => None,
                },
                None => match obj_get(m, "metaData"@) {
                    Some(md) => match ParquetMetadataAction::of_json(md) {
                        Some(v) => Some(ParquetActionView::Metadata(v)),
                        None => None,
                    },
                    None => match obj_get(m, "file"@) {
                        Some(f) => match ParquetFileAction::of_json(f) {
                            Some(v) => Some(ParquetActionView::File(v)),
                            None => None,
                        },
                        None => None,
                    },
                },
            },
            _ => None,
        }
    }

    fn from_json(j: &Json) -> (r: Option<Self>) {
        match j {
            Json::Obj(m) => match obj_get_x(m, "protocol") {
                Some(p) => match ParquetProtocolAction::from_json(p) {
                    Some(v) => Some(ParquetAction::Protocol(v)),
                    None => None,
                },
                None => match obj_get_x(m, "metaData") {
                    Some(md) => match ParquetMetadataAction::from_json(md) {
                        Some(v) => Some(ParquetAction::Metadata(v)),
                        None => None,
                    },
                    None => match obj_get_x(m, "file") {
                        Some(f) => match ParquetFileAction::from_json(f) {
                            Some(v) => Some(ParquetAction::File(v)),
                            None => None,
                        },
                        None => None,
                    },
                },
            },
            _ => None,
        }
    }
}

/// The protocol action of the parquet format.
#[derive(Debug)]
pub struct ParquetProtocolAction {
    pub min_reader_version: u32,
}

/// Specification-level value of a [`ParquetProtocolAction`].
pub struct ParquetProtocolActionView {
    pub min_reader_version: u32,
}

impl View for ParquetProtocolAction {
    type V = ParquetProtocolActionView;

    open spec fn view(&self) -> ParquetProtocolActionView {
        ParquetProtocolActionView { min_reader_version: self.min_reader_version }
    }
}

impl JsonValue for ParquetProtocolAction {
    /// A protocol action: an object with a required `minReaderVersion`
    /// number that fits a `u32`.
    open spec fn of_json(j: JsonView) -> Option<ParquetProtocolActionView> {
        match j {
            JsonView::Obj(m) => match req_u64_field(m, "minReaderVersion"@) {
                Some(v) => if v <= u32::MAX {
                    Some(ParquetProtocolActionView { min_reader_version: v as u32 })
                } else {
                    None
                },
                None => None,
            },
            _ => None,
        }
    }

    fn from_json(j: &Json) -> (r: Option<Self>) {
        match j {
            Json::Obj(m) => match req_u64_field_x(m, "minReaderVersion") {
                Some(v) => {
                    if v <= u32::MAX as u64 {
                        Some(ParquetProtocolAction { min_reader_version: v as u32 })
                    } else {
                        None
                    }
                },
                None => None,
            },
            _ => None,
        }
    }
}

/// The metadata action of the parquet format.
#[derive(Debug)]
pub struct ParquetMetadataAction {
    pub id: String,
    pub name: Option<String>,
    pub description: Option<String>,
    pub schema_string: String,
    pub partition_columns: Vec<String>,
    pub configuration: Vec<(String, Option<String>)>,
    pub version: Option<u64>,
    pub size: Option<u64>,
    pub num_files: Option<u64>,
}

/// Specification-level value of a [`ParquetMetadataAction`].
pub struct ParquetMetadataActionView {
    pub id: Seq<char>,
    pub name: Option<Seq<char>>,
    pub description: Option<Seq<char>>,
    pub schema_string: Seq<char>,
    pub partition_columns: Seq<Seq<char>>,
    pub configuration: Seq<(Seq<char>, Option<Seq<char>>)>,
    pub version: Option<u64>,
    pub size: Option<u64>,
    pub num_files: Option<u64>,
}

impl View for ParquetMetadataAction {
    type V = ParquetMetadataActionView;

    open spec fn view(&self) -> ParquetMetadataActionView {
        ParquetMetadataActionView {
            id: self.id@,
            name: self.name.deep_view(),
            description: self.description.deep_view(),
            schema_string: self.schema_string@,
            partition_columns: views_of(self.partition_columns@),
            configuration: self.configuration.deep_view(),
            version: self.version,
            size: self.size,
            num_files: self.num_files,
        }
    }
}

/// The string-or-null map a `configuration` member holds: an empty map when
/// the member is absent.
pub open spec fn config_field(m: Seq<(Seq<char>, JsonView)>, key: Seq<char>) -> Option<
    Seq<(Seq<char>, Option<Seq<char>>)>,
> {
    match obj_get(m, key) {
        None => Some(Seq::empty()),
        Some(JsonView::Obj(cm)) => string_map_of_members(cm),
        _ => None,
    }
}

/// Read a string-or-null map member, exactly as [`config_field`] describes.
fn config_field_x(m: &Vec<(String, Json)>, key: &str) -> (r: Option<Vec<(String, Option<String>)>>)
    ensures
        match r {
            Some(v) => config_field(Json::view_members(m@), key@) == Some(v.deep_view()),
            None => config_field(Json::view_members(m@), key@) is None,
        },
{
    match obj_get_x(m, key) {
        None => {
            let empty: Vec<(String, Option<String>)> = Vec::new();
            proof {
                assert(empty.deep_view() =~= Seq::<(Seq<char>, Option<Seq<char>>)>::empty());
            }
            Some(empty)
        },
        Some(Json::Obj(cm)) => string_map_from_members(cm),
        _ => None,
    }
}

impl JsonValue for ParquetMetadataAction {
    /// A metadata action: required `id`, `schemaString` and
    /// `partitionColumns`, an optional `configuration` map, optional `name`
    /// and `description`, and optional `version`, `size` and `numFiles`
    /// numbers.
    open spec fn of_json(j: JsonView) -> Option<ParquetMetadataActionView> {
        match j {
            JsonView::Obj(m) => match (
                req_str_field(m, "id"@),
                opt_str_field(m, "name"@),
                opt_str_field(m, "description"@),
                req_str_field(m, "schemaString"@),
                req_str_list_field(m, "partitionColumns"@),
                config_field(m, "configuration"@),
                opt_u64_field(m, "version"@),
                opt_u64_field(m, "size"@),
                opt_u64_field(m, "numFiles"@),
            ) {
                (
                    Some(id),
                    Some(name),
                    Some(description),
                    Some(schema_string),
                    Some(partition_columns),
                    Some(configuration),
                    Some(version),
                    Some(size),
                    Some(num_files),
                ) => Some(
                    ParquetMetadataActionView {
                        id,
                        name,
                        description,
                        schema_string,
                        partition_columns,
                        configuration,
                        version,
                        size,
                        num_files,
                    },
                ),
                _ => None,
            },
            _ => None,
        }
    }

    fn from_json(j: &Json) -> (r: Option<Self>) {
        match j {
            Json::Obj(m) => {
                let id = match req_str_field_x(m, "id") {
                    Some(v) => v,
                    None => {
                        return None;
                    },
                };
                let name = match opt_str_field_x(m, "name") {
                    Some(v) => v,
                    None => {
                        return None;
                    },
                };
                let description = match opt_str_field_x(m, "description") {
                    Some(v) => v,
                    None => {
                        return None;
                    },
                };
                let schema_string = match req_str_field_x(m, "schemaString") {
                    Some(v) => v,
                    None => {
                        return None;
                    },
                };
                let partition_columns = match req_str_list_field_x(m, "partitionColumns") {
                    Some(v) => v,
                    None => {
                        return None;
                    },
                };
                let configuration = match config_field_x(m, "configuration") {
                    Some(v) => v,
                    None => {
                        return None;
                    },
                };
                let version = match opt_u64_field_x(m, "version") {
                    Some(v) => v,
                    None => {
                        return None;
                    },
                };
                let size = match opt_u64_field_x(m, "size") {
                    Some(v) => v,
                    None => {
                        return None;
                    },
                };
                let num_files = match opt_u64_field_x(m, "numFiles") {
                    Some(v) => v,
                    None => {
                        return None;
                    },
                };
                Some(
                    ParquetMetadataAction {
                        id,
                        name,
                        description,
                        schema_string,
                        partition_columns,
                        configuration,
                        version,
                        size,
                        num_files,
                    },
                )
            },
            _ => None,
        }
    }
}

/// A file action of the parquet format.
#[derive(Debug)]
pub struct ParquetFileAction {
    pub url: String,
    pub id: String,
    pub partition_values: Vec<(String, Option<String>)>,
    pub size: u64,
    pub stats: Option<String>,
    pub version: Option<u64>,
    pub timestamp: Option<u64>,
    pub expiration_timestamp: Option<i64>,
}

/// Specification-level value of a [`ParquetFileAction`].
pub struct ParquetFileActionView {
    pub url: Seq<char>,
    pub id: Seq<char>,
    pub partition_values: Seq<(Seq<char>, Option<Seq<char>>)>,
    pub size: u64,
    pub stats: Option<Seq<char>>,
    pub version: Option<u64>,
    pub timestamp: Option<u64>,
    pub expiration_timestamp: Option<i64>,
}

impl View for ParquetFileAction {
    type V = ParquetFileActionView;

    open spec fn view(&self) -> ParquetFileActionView {
        ParquetFileActionView {
            url: self.url@,
            id: self.id@,
            partition_values: self.partition_values.deep_view(),
            size: self.size,
            stats: self.stats.deep_view(),
            version: self.version,
            timestamp: self.timestamp,
            expiration_timestamp: self.expiration_timestamp,
        }
    }
}

impl JsonValue for ParquetFileAction {
    /// A file action: required `url`, `id`, `partitionValues` map and
    /// `size`, an optional `stats` string, and optional `version`,
    /// `timestamp` and `expirationTimestamp` numbers; the expiration must
    /// fit an `i64`.
    open spec fn of_json(j: JsonView) -> Option<ParquetFileActionView> {
        match j {
            JsonView::Obj(m) => match (
                req_str_field(m, "url"@),
                req_str_field(m, "id"@),
                config_field(m, "partitionValues"@),
                req_u64_field(m, "size"@),
                opt_str_field(m, "stats"@),
                opt_u64_field(m, "version"@),
                opt_u64_field(m, "timestamp"@),
                opt_u64_field(m, "expirationTimestamp"@),
            ) {
                (
                    Some(url),
                    Some(id),
                    Some(partition_values),
                    Some(size),
                    Some(stats),
                    Some(version),
                    Some(timestamp),
                    Some(expiration),
                ) => {
                    let expiration_fits = match expiration {
                        Some(e) => e <= i64::MAX,
                        None => true,
                    };
                    if expiration_fits {
                        Some(
                            ParquetFileActionView {
                                url,
                                id,
                                partition_values,
                                size,
                                stats,
                                version,
                                timestamp,
                                expiration_timestamp: match expiration {
                                    Some(e) => Some(e as i64),
                                    None => None,
                                },
                            },
                        )
                    } else {
                        None
                    }
                },
                _ => None,
            },
            _ => None,
        }
    }

    fn from_json(j: &Json) -> (r: Option<Self>) {
        match j {
            Json::Obj(m) => {
                let url = match req_str_field_x(m, "url") {
                    Some(v) => v,
                    None => {
                        return None;
                    },
                };
                let id = match req_str_field_x(m, "id") {
                    Some(v) => v,
                    None => {
                        return None;
                    },
                };
                let partition_values = match config_field_x(m, "partitionValues") {
                    Some(v) => v,
                    None => {
                        return None;
                    },
                };
                let size = match req_u64_field_x(m, "size") {
                    Some(v) => v,
                    None => {
                        return None;
                    },
                };
                let stats = match opt_str_field_x(m, "stats") {
                    Some(v) => v,
                    None => {
                        return None;
                    },
                };
                let version = match opt_u64_field_x(m, "version") {
                    Some(v) => v,
                    None => {
                        return None;
                    },
                };
                let timestamp = match opt_u64_field_x(m, "timestamp") {
                    Some(v) => v,
                    None => {
                        return None;
                    },
                };
                let expiration_timestamp: Option<i64> = match opt_u64_field_x(
                    m,
                    "expirationTimestamp",
                ) {
                    Some(Some(e)) => {
                        if e <= i64::MAX as u64 {
                            Some(e as i64)
                        } else {
                            return None;
                        }
                    },
                    Some(None) => None,
                    None => {
                        return None;
                    },
                };
                Some(
                    ParquetFileAction {
                        url,
                        id,
                        partition_values,
                        size,
                        stats,
                        version,
                        timestamp,
                        expiration_timestamp,
                    },
                )
            },
            _ => None,
        }
    }
}

} // verus!
