//! Actions of the delta response format.
//!
//! The delta format wraps the Delta Lake protocol's own action records. The
//! records are held here as plain fields; reading the table data they point
//! at is out of this crate's scope.

use vstd::prelude::*;

verus! {

/// One action line of a response in the delta format.
#[derive(Debug)]
pub enum DeltaAction {
    Protocol(DeltaProtocolAction),
    Metadata(DeltaMetadataAction),
    File(DeltaFileAction),
}

/// The protocol action of the delta format.
#[derive(Debug)]
pub struct DeltaProtocolAction {
    pub min_reader_version: u32,
    pub min_writer_version: u32,
    pub reader_features: Option<Vec<String>>,
    pub writer_features: Option<Vec<String>>,
}

/// The metadata action of the delta format.
#[derive(Debug)]
pub struct DeltaMetadataAction {
    pub id: String,
    pub name: Option<String>,
    pub description: Option<String>,
    pub schema_string: String,
    pub partition_columns: Vec<String>,
    pub configuration: Vec<(String, String)>,
    pub created_time: Option<i64>,
}

/// The single Delta Lake action a delta file action wraps.
#[derive(Debug)]
pub enum DeltaSingleAction {
    Add(DeltaAddAction),
}

/// A Delta Lake add-file record.
#[derive(Debug)]
pub struct DeltaAddAction {
    pub path: String,
    pub partition_values: Vec<(String, Option<String>)>,
    pub size: u64,
    pub modification_time: i64,
    pub data_change: bool,
    pub stats: Option<String>,
}

/// A file action of the delta format.
#[derive(Debug)]
pub struct DeltaFileAction {
    pub id: String,
    pub deletion_vector_field_id: Option<String>,
    pub version: Option<u64>,
    pub timestamp: Option<u64>,
    pub expiration_timestamp: Option<u64>,
    pub delta_single_action: DeltaSingleAction,
}

} // verus!
