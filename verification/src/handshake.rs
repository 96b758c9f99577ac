//! Opening an ingestion stream, as a state machine.
//!
//! Before any record batch is read, the service waits for the schema message,
//! checks the table it names, opens a writer for that table, and acknowledges
//! the schema message (request id zero). Shutting down the server interrupts
//! the waits. [`Handshake::step`] takes each of these decisions.

use vstd::prelude::*;

use crate::errors::{ingestion_status, ingestion_status_view, Error};
use crate::metadata::{
    accept_first_message, ack_metadata, acknowledgement, check_target, first_message_outcome, target_outcome,
    FirstMessage, PutResult, SchemaMetadata,
};
use crate::status::{Code, Status, StatusView};

verus! {

/// How far the opening of a stream has come.
#[derive(Clone, Copy, Debug, PartialEq, Eq)]
pub enum Handshake {
    /// Waiting for the first message.
    AwaitingSchema,
    /// Waiting for the catalog store's verdict on the target table's names.
    CheckingTarget { request_id: u64 },
    /// Waiting for a writer for the target table.
    OpeningTable { request_id: u64 },
    /// Waiting for the acknowledgement of the schema message to be sent.
    Acknowledging { request_id: u64 },
    /// The stream is open: record batches follow.
    Open,
    /// The stream was refused.
    Refused,
}

/// What the service observed while opening a stream.
#[derive(Debug)]
pub enum HandshakeEvent {
    /// The server is shutting down.
    Cancelled,
    /// The first message arrived, or the input ended without one.
    First(FirstMessage),
    /// The catalog store checked the catalog name and the namespace.
    TargetChecked { catalog_valid: bool, namespace_valid: bool },
    /// Opening a writer for the table succeeded, or failed with this error.
    TableOpened(Result<(), Error>),
    /// Sending the acknowledgement succeeded, or the reply stream was closed.
    AcknowledgementSent(bool),
}

/// What the service is to do next.
pub enum HandshakeAction {
    /// Answer the request with this status.
    Refuse(Status),
    /// Ask the catalog store whether the names of this target table are valid.
    CheckTarget(SchemaMetadata),
    /// Open a writer for the target table.
    OpenTable,
    /// Send this acknowledgement of the schema message.
    Acknowledge(PutResult),
    /// Answer the request with the reply stream and start reading record batches.
    StartStreaming,
}

/// A decision as a mathematical value.
pub enum HandshakePlan {
    Refuse(StatusView),
    CheckTarget(SchemaMetadata),
    OpenTable,
    Acknowledge(u64),
    StartStreaming,
}

/// The status of a request interrupted by the server's shutdown.
pub open spec fn shutdown_status() -> StatusView {
    (Code::Cancelled, "server shutting down"@)
}

/// Whether an event can reach the opening of a stream in this state:
/// cancellation interrupts the waits for the first message and for the table,
/// and each other event answers the wait it belongs to.
pub open spec fn awaits(state: Handshake, event: HandshakeEvent) -> bool {
    match event {
        HandshakeEvent::Cancelled => state is AwaitingSchema || state is OpeningTable,
        HandshakeEvent::First(_) => state is AwaitingSchema,
        HandshakeEvent::TargetChecked { .. } => state is CheckingTarget,
        HandshakeEvent::TableOpened(_) => state is OpeningTable,
        HandshakeEvent::AcknowledgementSent(_) => state is Acknowledging,
    }
}

/// The next state and the decision on an event that the state awaits.
pub open spec fn handshake_next(state: Handshake, event: HandshakeEvent) -> (Handshake, HandshakePlan) {
    match event {
        HandshakeEvent::Cancelled => (Handshake::Refused, HandshakePlan::Refuse(shutdown_status())),
        HandshakeEvent::First(first) => match first_message_outcome(first) {
            Err(status) => (Handshake::Refused, HandshakePlan::Refuse(status)),
            Ok(schema) => (
                Handshake::CheckingTarget { request_id: schema.request_id },
                HandshakePlan::CheckTarget(schema),
            ),
        },
        HandshakeEvent::TargetChecked { catalog_valid, namespace_valid } => match target_outcome(
            catalog_valid,
            namespace_valid,
        ) {
            Err(status) => (Handshake::Refused, HandshakePlan::Refuse(status)),
            Ok(_) => (Handshake::OpeningTable { request_id: state->CheckingTarget_request_id }, HandshakePlan::OpenTable),
        },
        HandshakeEvent::TableOpened(opened) => match opened {
            Err(error) => (Handshake::Refused, HandshakePlan::Refuse(ingestion_status_view(error))),
            Ok(_) => (
                Handshake::Acknowledging { request_id: state->OpeningTable_request_id },
                HandshakePlan::Acknowledge(state->OpeningTable_request_id),
            ),
        },
        HandshakeEvent::AcknowledgementSent(sent) => if sent {
            (Handshake::Open, HandshakePlan::StartStreaming)
        } else {
            (Handshake::Refused, HandshakePlan::Refuse((Code::Internal, "acknowledgement stream closed"@)))
        },
    }
}

/// The decision once the catalog store checked the target table's names: a
/// rejected catalog name refuses the stream first, then a rejected namespace;
/// only with both names accepted is the table opened, for the same request.
pub open spec fn target_decided(
    state: Handshake,
    result: (Handshake, HandshakeAction),
    catalog_valid: bool,
    namespace_valid: bool,
) -> bool {
    if !catalog_valid {
        &&& result.0 is Refused
        &&& result.1 matches HandshakeAction::Refuse(status)
        &&& status@ == (Code::InvalidArgument, "invalid catalog id"@)
    } else if !namespace_valid {
        &&& result.0 is Refused
        &&& result.1 matches HandshakeAction::Refuse(status)
        &&& status@ == (Code::InvalidArgument, "invalid namespace"@)
    } else {
        &&& result.0 == Handshake::OpeningTable { request_id: state->CheckingTarget_request_id }
        &&& result.1 is OpenTable
    }
}

/// Whether an action carries out a decision.
pub open spec fn performs(action: HandshakeAction, plan: HandshakePlan) -> bool {
    match plan {
        HandshakePlan::Refuse(status) => action matches HandshakeAction::Refuse(s) && s@ == status,
        HandshakePlan::CheckTarget(schema) => action matches HandshakeAction::CheckTarget(s) && s == schema,
        HandshakePlan::OpenTable => action is OpenTable,
        HandshakePlan::Acknowledge(request_id) => action matches HandshakeAction::Acknowledge(ack)
            && ack.app_metadata@ == ack_metadata(request_id),
        HandshakePlan::StartStreaming => action is StartStreaming,
    }
}

impl Handshake {
    /// The opening of a new stream, before its first message.
    pub fn new() -> (state: Handshake)
        ensures
            state is AwaitingSchema,
    {
        Handshake::AwaitingSchema
    }

    /// Decides on an event that the current state awaits.
    pub fn step(self, event: HandshakeEvent) -> (result: (Handshake, HandshakeAction))
        requires
            awaits(self, event),
        ensures
            result.0 == handshake_next(self, event).0,
            performs(result.1, handshake_next(self, event).1),
            match event {
                HandshakeEvent::TargetChecked { catalog_valid, namespace_valid } => target_decided(
                    self,
                    result,
                    catalog_valid,
                    namespace_valid,
                ),
                _ => true,
            },
    {
        match event {
            HandshakeEvent::Cancelled => (Handshake::Refused, HandshakeAction::Refuse(Status::cancelled("server shutting down"))),
            HandshakeEvent::First(first) => match accept_first_message(first) {
                Err(status) => (Handshake::Refused, HandshakeAction::Refuse(status)),
                Ok(schema) => (
                    Handshake::CheckingTarget { request_id: schema.request_id },
                    HandshakeAction::CheckTarget(schema),
                ),
            },
            HandshakeEvent::TargetChecked { catalog_valid, namespace_valid } => {
                match check_target(catalog_valid, namespace_valid) {
                    Err(status) => (Handshake::Refused, HandshakeAction::Refuse(status)),
                    Ok(_) => match self {
                        Handshake::CheckingTarget { request_id } => (
                            Handshake::OpeningTable { request_id },
                            HandshakeAction::OpenTable,
                        ),
                        _ => vstd::pervasive::unreached(),
                    },
                }
            },
            HandshakeEvent::TableOpened(opened) => match opened {
                Err(error) => (Handshake::Refused, HandshakeAction::Refuse(ingestion_status(&error))),
                Ok(_) => match self {
                    Handshake::OpeningTable { request_id } => match acknowledgement(request_id) {
                        Ok(ack) => (Handshake::Acknowledging { request_id }, HandshakeAction::Acknowledge(ack)),
                        Err(status) => (Handshake::Refused, HandshakeAction::Refuse(status)),
                    },
                    _ => vstd::pervasive::unreached(),
                },
            },
            HandshakeEvent::AcknowledgementSent(sent) => {
                if sent {
                    (Handshake::Open, HandshakeAction::StartStreaming)
                } else {
                    (Handshake::Refused, HandshakeAction::Refuse(Status::internal("acknowledgement stream closed")))
                }
            },
        }
    }
}

/// The request id carried from the schema message to its acknowledgement.
pub open spec fn pending_request_id(state: Handshake) -> Option<u64> {
    match state {
        Handshake::CheckingTarget { request_id } => Some(request_id),
        Handshake::OpeningTable { request_id } => Some(request_id),
        Handshake::Acknowledging { request_id } => Some(request_id),
        _ => None,
    }
}

/// The opening of a stream only ever acknowledges request id zero, the id of
/// the schema message: every state that carries a request id carries zero.
pub proof fn lemma_schema_acknowledged_as_zero(state: Handshake, event: HandshakeEvent)
    requires
        awaits(state, event),
        pending_request_id(state) matches Some(id) ==> id == 0,
    ensures
        pending_request_id(handshake_next(state, event).0) matches Some(id) ==> id == 0,
        handshake_next(state, event).1 matches HandshakePlan::Acknowledge(id) ==> id == 0,
{
}

/// A table is opened only for a target whose catalog name and namespace were
/// both accepted; a rejected catalog name is reported before a rejected
/// namespace.
pub proof fn lemma_table_opened_only_for_valid_target(request_id: u64, catalog_valid: bool, namespace_valid: bool)
    ensures
        ({
            let (next, plan) = handshake_next(
                Handshake::CheckingTarget { request_id },
                HandshakeEvent::TargetChecked { catalog_valid, namespace_valid },
            );
            &&& next is OpeningTable <==> catalog_valid && namespace_valid
            &&& next is OpeningTable ==> next == Handshake::OpeningTable { request_id } && plan is OpenTable
            &&& !catalog_valid ==> plan == HandshakePlan::Refuse((Code::InvalidArgument, "invalid catalog id"@))
            &&& catalog_valid && !namespace_valid ==> plan == HandshakePlan::Refuse(
                (Code::InvalidArgument, "invalid namespace"@),
            )
        }),
{
}

/// A stream opens only when its acknowledgement was delivered, and a refused
/// opening stays refused: nothing moves a stream into either state otherwise.
pub proof fn lemma_open_only_after_acknowledgement(state: Handshake, event: HandshakeEvent)
    requires
        awaits(state, event),
    ensures
        handshake_next(state, event).0 is Open ==> state is Acknowledging && event == HandshakeEvent::AcknowledgementSent(true),
        handshake_next(state, event).0 is Open <==> handshake_next(state, event).1 is StartStreaming,
        handshake_next(state, event).0 is Refused <==> handshake_next(state, event).1 is Refuse,
{
}

} // verus!
