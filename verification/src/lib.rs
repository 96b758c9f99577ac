//! Arrow Flight SQL ingestion service: the decisions it takes, with their proofs.
//!
//! The service accepts a stream of record batches for one table. The first
//! message carries the schema and the target table; every later message carries
//! one record batch and a request id. Each batch is admitted only while the
//! stream stays within its concurrency and memory limits, and every finished
//! write is acknowledged with its request id.

pub mod errors;
pub mod handshake;
pub mod metadata;
pub mod options;
pub mod permit;
pub mod status;
pub mod stream;

pub use errors::{ingestion_status, write_status, Error, WriteError};
pub use handshake::{Handshake, HandshakeAction, HandshakeEvent};
pub use metadata::{
    accept_first_message, acknowledgement, check_target, parse_request_metadata, parse_schema_metadata,
    FirstMessage, PayloadKind, PutResult, RequestMetadata, SchemaMetadata,
};
pub use options::{IngestionOptions, NonZeroU64, NonZeroUsize};
pub use permit::{budget_permits, limit_status, IngestionPermit, IngestionSemaphore, Limit};
pub use status::{Code, Status};
pub use stream::{after_acknowledgement, InputMessage, StreamAction, StreamEvent, StreamState, TaskOutcome};
