use se_ingestion_server::{ingestion_status, write_status, Code, Error, WriteError};

#[test]
fn write_errors_keep_their_message() {
    let status = write_status(WriteError::InvalidSchema);
    assert_eq!(status.code, Code::InvalidArgument);
    assert_eq!(status.message, "invalid record batch schema");

    let status = write_status(WriteError::EmptyBatch);
    assert_eq!(status.code, Code::InvalidArgument);
    assert_eq!(status.message, "record batch is empty");

    let status = write_status(WriteError::Flush);
    assert_eq!(status.code, Code::Internal);
    assert_eq!(status.message, "failed to flush record batch");
}

#[test]
fn missing_targets_are_not_found() {
    let status = ingestion_status(&Error::CatalogNotFound("sales".to_string()));
    assert_eq!(status.code, Code::NotFound);
    assert_eq!(status.message, "catalog not found");

    let status = ingestion_status(&Error::TableNotFound("sales.orders".to_string()));
    assert_eq!(status.code, Code::NotFound);
    assert_eq!(status.message, "table not found");
}

#[test]
fn error_messages_name_what_is_missing() {
    assert_eq!(Error::CatalogNotFound("sales".to_string()).message(), "catalog not found: sales");
    assert_eq!(Error::TableNotFound("sales.orders".to_string()).message(), "table not found: sales.orders");
    assert_eq!(WriteError::Flush.message(), "failed to flush record batch");
}
