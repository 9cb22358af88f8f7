use delta_sharing::parse_actions_text;
use delta_sharing::parse_table_changes_body;
use delta_sharing::parse_table_data_body;
use delta_sharing::parse_table_metadata_body;
use delta_sharing::ParquetAction;
use delta_sharing::TableAction;

const PROTOCOL_LINE: &str = r#"{"protocol":{"minReaderVersion":1}}"#;
const METADATA_LINE: &str = r#"{"metaData":{"id":"m-1","schemaString":"{\"type\":\"struct\"}","partitionColumns":["date"],"configuration":{"enableChangeDataFeed":"true","legacy":null}}}"#;
const FILE_LINE: &str = r#"{"file":{"url":"https://bucket/f1.parquet","id":"f1","partitionValues":{"date":"2021-04-28"},"size":573,"stats":"{\"numRecords\":1}"}}"#;

#[test]
fn actions_parse_line_by_line() {
    let body = format!("{}\n{}\n{}\n", PROTOCOL_LINE, METADATA_LINE, FILE_LINE);
    let actions = parse_actions_text(&body).unwrap();
    assert_eq!(actions.len(), 3);
    assert!(actions[0].is_protocol_action());
    assert!(actions[1].is_metadata_action());
    assert!(actions[2].is_file_action());

    match &actions[1] {
        TableAction::Parquet(ParquetAction::Metadata(m)) => {
            assert_eq!(m.id, "m-1");
            assert_eq!(m.partition_columns, vec!["date".to_owned()]);
            assert_eq!(
                m.configuration,
                vec![
                    ("enableChangeDataFeed".to_owned(), Some("true".to_owned())),
                    ("legacy".to_owned(), None),
                ]
            );
            assert_eq!(m.name, None);
        }
        _ => panic!("expected a parquet metadata action"),
    }
    match &actions[2] {
        TableAction::Parquet(ParquetAction::File(f)) => {
            assert_eq!(f.url, "https://bucket/f1.parquet");
            assert_eq!(f.size, 573);
            assert_eq!(f.stats.as_deref(), Some("{\"numRecords\":1}"));
            assert_eq!(f.version, None);
        }
        _ => panic!("expected a parquet file action"),
    }
}

#[test]
fn metadata_body_is_protocol_then_metadata() {
    let body = format!("{}\n{}", PROTOCOL_LINE, METADATA_LINE);
    let response = parse_table_metadata_body(&body).unwrap();
    assert!(response.protocol.is_protocol_action());
    assert!(response.metadata.is_metadata_action());

    let swapped = format!("{}\n{}", METADATA_LINE, PROTOCOL_LINE);
    assert!(parse_table_metadata_body(&swapped).is_none());

    let with_file = format!("{}\n{}\n{}", PROTOCOL_LINE, METADATA_LINE, FILE_LINE);
    assert!(parse_table_metadata_body(&with_file).is_none());
}

#[test]
fn data_body_collects_file_actions_in_order() {
    let body = format!("{}\n{}\n{}\n{}", PROTOCOL_LINE, METADATA_LINE, FILE_LINE, FILE_LINE);
    let response = parse_table_data_body(&body).unwrap();
    assert!(response.protocol.is_protocol_action());
    assert!(response.metadata.is_metadata_action());
    assert_eq!(response.files.len(), 2);
    assert!(response.files[0].is_file_action());

    let no_files = format!("{}\n{}", PROTOCOL_LINE, METADATA_LINE);
    let response = parse_table_data_body(&no_files).unwrap();
    assert_eq!(response.files.len(), 0);

    let misplaced = format!("{}\n{}\n{}", PROTOCOL_LINE, METADATA_LINE, PROTOCOL_LINE);
    assert!(parse_table_data_body(&misplaced).is_none());
}

#[test]
fn changes_body_is_shaped_as_a_data_body() {
    let body = format!("{}\n{}\n{}", PROTOCOL_LINE, METADATA_LINE, FILE_LINE);
    let response = parse_table_changes_body(&body).unwrap();
    assert_eq!(response.files.len(), 1);
}

#[test]
fn malformed_action_bodies_are_rejected() {
    assert!(parse_actions_text("{\"protocol\":").is_none());
    assert!(parse_actions_text(r#"{"other":{}}"#).is_none());
    assert!(parse_table_metadata_body("").is_none());
    let truncated = r#"{"protocol":{"minReaderVersion":"one"}}"#;
    assert!(parse_actions_text(truncated).is_none());
}
