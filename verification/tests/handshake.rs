use se_ingestion_server::{
    Code, Error, FirstMessage, Handshake, HandshakeAction, HandshakeEvent, PayloadKind, SchemaMetadata,
};

fn schema(request_id: u64) -> SchemaMetadata {
    SchemaMetadata {
        request_id,
        catalog: "sales".to_string(),
        namespace: vec!["eu".to_string(), "retail".to_string()],
        table_name: "orders".to_string(),
    }
}

fn refusal(action: HandshakeAction) -> (Code, String) {
    match action {
        HandshakeAction::Refuse(status) => (status.code, status.message),
        _ => panic!("expected a refusal"),
    }
}

#[test]
fn a_stream_opens_after_its_schema_is_acknowledged() {
    let first = FirstMessage::Decoded { payload: PayloadKind::Schema, metadata: Some(schema(0)) };
    let (state, action) = Handshake::new().step(HandshakeEvent::First(first));
    assert_eq!(state, Handshake::CheckingTarget { request_id: 0 });
    match action {
        HandshakeAction::CheckTarget(target) => assert_eq!(target, schema(0)),
        _ => panic!("expected a target check"),
    }

    let (state, action) = state.step(HandshakeEvent::TargetChecked { catalog_valid: true, namespace_valid: true });
    assert_eq!(state, Handshake::OpeningTable { request_id: 0 });
    assert!(matches!(action, HandshakeAction::OpenTable));

    let (state, action) = state.step(HandshakeEvent::TableOpened(Ok(())));
    assert_eq!(state, Handshake::Acknowledging { request_id: 0 });
    match action {
        HandshakeAction::Acknowledge(ack) => assert_eq!(ack.app_metadata, br#"{"request_id":0}"#.to_vec()),
        _ => panic!("expected an acknowledgement"),
    }

    let (state, action) = state.step(HandshakeEvent::AcknowledgementSent(true));
    assert_eq!(state, Handshake::Open);
    assert!(matches!(action, HandshakeAction::StartStreaming));
}

#[test]
fn shutdown_refuses_an_opening_stream() {
    let (state, action) = Handshake::new().step(HandshakeEvent::Cancelled);
    assert_eq!(state, Handshake::Refused);
    assert_eq!(refusal(action), (Code::Cancelled, "server shutting down".to_string()));

    let (state, action) = Handshake::OpeningTable { request_id: 0 }.step(HandshakeEvent::Cancelled);
    assert_eq!(state, Handshake::Refused);
    assert_eq!(refusal(action), (Code::Cancelled, "server shutting down".to_string()));
}

#[test]
fn opening_refusals() {
    let (_, action) = Handshake::new().step(HandshakeEvent::First(FirstMessage::Missing));
    assert_eq!(refusal(action), (Code::InvalidArgument, "schema message is required".to_string()));

    let first = FirstMessage::Decoded { payload: PayloadKind::Schema, metadata: Some(schema(5)) };
    let (_, action) = Handshake::new().step(HandshakeEvent::First(first));
    assert_eq!(refusal(action), (Code::InvalidArgument, "schema request_id must be zero".to_string()));

    let checking = Handshake::CheckingTarget { request_id: 0 };
    let (_, action) = checking.step(HandshakeEvent::TargetChecked { catalog_valid: false, namespace_valid: true });
    assert_eq!(refusal(action), (Code::InvalidArgument, "invalid catalog id".to_string()));

    let opening = Handshake::OpeningTable { request_id: 0 };
    let (_, action) = opening.step(HandshakeEvent::TableOpened(Err(Error::TableNotFound("sales.eu.orders".to_string()))));
    assert_eq!(refusal(action), (Code::NotFound, "table not found".to_string()));

    let acknowledging = Handshake::Acknowledging { request_id: 0 };
    let (state, action) = acknowledging.step(HandshakeEvent::AcknowledgementSent(false));
    assert_eq!(state, Handshake::Refused);
    assert_eq!(refusal(action), (Code::Internal, "acknowledgement stream closed".to_string()));
}
