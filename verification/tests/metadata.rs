use se_ingestion_server::{
    accept_first_message, acknowledgement, check_target, parse_request_metadata, parse_schema_metadata, Code,
    FirstMessage, PayloadKind, RequestMetadata, SchemaMetadata,
};

fn schema(request_id: u64) -> SchemaMetadata {
    SchemaMetadata {
        request_id,
        catalog: "sales".to_string(),
        namespace: vec!["eu".to_string()],
        table_name: "orders".to_string(),
    }
}

#[test]
fn schema_metadata_is_accepted_with_request_id_zero() {
    let parsed = parse_schema_metadata(PayloadKind::Schema, Some(schema(0))).unwrap();
    assert_eq!(parsed, schema(0));
}

#[test]
fn schema_metadata_rejections() {
    let status = parse_schema_metadata(PayloadKind::RecordBatch, Some(schema(0))).unwrap_err();
    assert_eq!(status.code, Code::InvalidArgument);
    assert_eq!(status.message, "first message must be a schema message");

    let status = parse_schema_metadata(PayloadKind::Schema, None).unwrap_err();
    assert_eq!(status.message, "invalid schema app metadata");

    let status = parse_schema_metadata(PayloadKind::Schema, Some(schema(3))).unwrap_err();
    assert_eq!(status.code, Code::InvalidArgument);
    assert_eq!(status.message, "schema request_id must be zero");
}

#[test]
fn first_message_must_be_present_and_decodable() {
    let status = accept_first_message(FirstMessage::Missing).unwrap_err();
    assert_eq!(status.code, Code::InvalidArgument);
    assert_eq!(status.message, "schema message is required");

    let status = accept_first_message(FirstMessage::Undecodable).unwrap_err();
    assert_eq!(status.message, "first message must be a schema message");

    let status = accept_first_message(FirstMessage::Decoded { payload: PayloadKind::Empty, metadata: None }).unwrap_err();
    assert_eq!(status.message, "first message must be a schema message");

    let accepted =
        accept_first_message(FirstMessage::Decoded { payload: PayloadKind::Schema, metadata: Some(schema(0)) });
    assert_eq!(accepted.unwrap(), schema(0));
}

#[test]
fn request_metadata_needs_a_nonzero_id() {
    assert_eq!(parse_request_metadata(Some(RequestMetadata { request_id: 9 })).unwrap(), 9);

    let status = parse_request_metadata(Some(RequestMetadata { request_id: 0 })).unwrap_err();
    assert_eq!(status.code, Code::InvalidArgument);
    assert_eq!(status.message, "request_id zero is reserved for the schema message");

    let status = parse_request_metadata(None).unwrap_err();
    assert_eq!(status.message, "invalid app metadata");
}

#[test]
fn target_checks_come_in_order() {
    assert!(check_target(true, true).is_ok());
    assert_eq!(check_target(false, false).unwrap_err().message, "invalid catalog id");
    assert_eq!(check_target(true, false).unwrap_err().message, "invalid namespace");
}

#[test]
fn acknowledgement_is_the_json_request_id() {
    let ack = acknowledgement(42).unwrap();
    assert_eq!(ack.app_metadata, br#"{"request_id":42}"#.to_vec());

    let ack = acknowledgement(0).unwrap();
    assert_eq!(ack.app_metadata, br#"{"request_id":0}"#.to_vec());
}

#[test]
fn acknowledgement_decodes_as_json() {
    for request_id in [1u64, 10, 9999, u64::MAX] {
        let ack = acknowledgement(request_id).unwrap();
        let value: serde_json::Value = serde_json::from_slice(&ack.app_metadata).unwrap();
        assert_eq!(value["request_id"].as_u64(), Some(request_id));
        assert_eq!(value.as_object().unwrap().len(), 1);
    }
}

#[test]
fn distinct_requests_get_distinct_acknowledgements() {
    let a = acknowledgement(12).unwrap();
    let b = acknowledgement(123).unwrap();
    assert_ne!(a.app_metadata, b.app_metadata);
}
