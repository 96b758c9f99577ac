//! The application metadata that travels with each Flight message, and the
//! acknowledgement that answers a written batch.
//!
//! Metadata is JSON. The service decodes it into [`SchemaMetadata`] or
//! [`RequestMetadata`] before these checks run; a decoding failure reaches them
//! as `None`. The acknowledgement is built here, byte for byte, as the JSON
//! object `{"request_id":N}`.

use vstd::prelude::*;

use crate::status::{Code, Status, StatusView};

verus! {

/// The metadata of the first message of a stream: it names the target table.
#[derive(Clone, Debug, PartialEq, Eq)]
pub struct SchemaMetadata {
    pub request_id: u64,
    pub catalog: String,
    pub namespace: Vec<String>,
    pub table_name: String,
}

/// The metadata of a record batch message.
#[derive(Clone, Copy, Debug, PartialEq, Eq)]
pub struct RequestMetadata {
    pub request_id: u64,
}

/// What a decoded Flight message carries.
#[derive(Clone, Copy, Debug, PartialEq, Eq)]
pub enum PayloadKind {
    Schema,
    RecordBatch,
    Empty,
}

/// The first message of a stream, as it arrived.
#[derive(Clone, Debug, PartialEq, Eq)]
pub enum FirstMessage {
    /// The stream ended before any message.
    Missing,
    /// The message could not be decoded as Flight data.
    Undecodable,
    /// A decoded message: what it carries, and its metadata decoded as schema
    /// metadata (`None` when that decoding failed).
    Decoded { payload: PayloadKind, metadata: Option<SchemaMetadata> },
}

/// An acknowledgement of a written batch.
#[derive(Clone, Debug, PartialEq, Eq)]
pub struct PutResult {
    pub app_metadata: Vec<u8>,
}

/// A result whose error is taken by its view.
pub open spec fn result_view<T>(result: Result<T, Status>) -> Result<T, StatusView> {
    match result {
        Ok(value) => Ok(value),
        Err(status) => Err(status@),
    }
}

/// What the metadata of the first message gives: the schema metadata when the
/// message carries a schema and its metadata decoded with request id zero.
pub open spec fn schema_outcome(payload: PayloadKind, metadata: Option<SchemaMetadata>) -> Result<SchemaMetadata, StatusView> {
    if !(payload is Schema) {
        Err((Code::InvalidArgument, "first message must be a schema message"@))
    } else {
        match metadata {
            None => Err((Code::InvalidArgument, "invalid schema app metadata"@)),
            Some(m) => if m.request_id != 0 {
                Err((Code::InvalidArgument, "schema request_id must be zero"@))
            } else {
                Ok(m)
            },
        }
    }
}

/// Checks the first message of a stream: it must carry a schema, and its
/// metadata must have decoded, with request id zero.
pub fn parse_schema_metadata(payload: PayloadKind, metadata: Option<SchemaMetadata>) -> (parsed: Result<SchemaMetadata, Status>)
    ensures
        result_view(parsed) == schema_outcome(payload, metadata),
{
    if !matches!(payload, PayloadKind::Schema) {
        return Err(Status::invalid_argument("first message must be a schema message"));
    }
    match metadata {
        None => Err(Status::invalid_argument("invalid schema app metadata")),
        Some(m) => {
            if m.request_id != 0 {
                Err(Status::invalid_argument("schema request_id must be zero"))
            } else {
                Ok(m)
            }
        },
    }
}

/// What the first message of a stream gives.
pub open spec fn first_message_outcome(first: FirstMessage) -> Result<SchemaMetadata, StatusView> {
    match first {
        FirstMessage::Missing => Err((Code::InvalidArgument, "schema message is required"@)),
        FirstMessage::Undecodable => Err((Code::InvalidArgument, "first message must be a schema message"@)),
        FirstMessage::Decoded { payload, metadata } => schema_outcome(payload, metadata),
    }
}

/// Opens a stream on its first message: it must be present, decodable, and a
/// schema message whose metadata passes [`parse_schema_metadata`].
pub fn accept_first_message(first: FirstMessage) -> (schema: Result<SchemaMetadata, Status>)
    ensures
        result_view(schema) == first_message_outcome(first),
{
    match first {
        FirstMessage::Missing => Err(Status::invalid_argument("schema message is required")),
        FirstMessage::Undecodable => Err(Status::invalid_argument("first message must be a schema message")),
        FirstMessage::Decoded { payload, metadata } => parse_schema_metadata(payload, metadata),
    }
}

/// What the metadata of a record batch gives: its request id, which must not
/// be zero, the id reserved for the schema message.
pub open spec fn request_outcome(metadata: Option<RequestMetadata>) -> Result<u64, StatusView> {
    match metadata {
        None => Err((Code::InvalidArgument, "invalid app metadata"@)),
        Some(m) => if m.request_id == 0 {
            Err((Code::InvalidArgument, "request_id zero is reserved for the schema message"@))
        } else {
            Ok(m.request_id)
        },
    }
}

/// The request id of a record batch, from its decoded metadata (`None` when
/// the metadata did not decode).
pub fn parse_request_metadata(metadata: Option<RequestMetadata>) -> (request_id: Result<u64, Status>)
    ensures
        result_view(request_id) == request_outcome(metadata),
{
    match metadata {
        None => Err(Status::invalid_argument("invalid app metadata")),
        Some(m) => {
            if m.request_id == 0 {
                Err(Status::invalid_argument("request_id zero is reserved for the schema message"))
            } else {
                Ok(m.request_id)
            }
        },
    }
}

/// What checking the target table gives: the catalog name is checked first,
/// then the namespace.
pub open spec fn target_outcome(catalog_valid: bool, namespace_valid: bool) -> Result<(), StatusView> {
    if !catalog_valid {
        Err((Code::InvalidArgument, "invalid catalog id"@))
    } else if !namespace_valid {
        Err((Code::InvalidArgument, "invalid namespace"@))
    } else {
        Ok(())
    }
}

/// The status for a target table whose catalog name or namespace the catalog
/// store rejected.
pub fn check_target(catalog_valid: bool, namespace_valid: bool) -> (checked: Result<(), Status>)
    ensures
        result_view(checked) == target_outcome(catalog_valid, namespace_valid),
{
    if !catalog_valid {
        Err(Status::invalid_argument("invalid catalog id"))
    } else if !namespace_valid {
        Err(Status::invalid_argument("invalid namespace"))
    } else {
        Ok(())
    }
}

/// The ASCII decimal digits of `n`, most significant first, without leading zeros.
pub open spec fn decimal_digits(n: nat) -> Seq<u8>
    decreases n,
{
    if n < 10 {
        seq![(48 + n) as u8]
    } else {
        decimal_digits(n / 10).push((48 + n % 10) as u8)
    }
}

/// The number that a string of ASCII decimal digits denotes.
pub open spec fn decimal_value(digits: Seq<u8>) -> nat
    decreases digits.len(),
{
    if digits.len() == 0 {
        0
    } else {
        decimal_value(digits.drop_last()) * 10 + (digits.last() - 48) as nat
    }
}

/// `{"request_id":`, the bytes before the number in an acknowledgement.
pub open spec fn ack_prefix() -> Seq<u8> {
    seq![123u8, 34, 114, 101, 113, 117, 101, 115, 116, 95, 105, 100, 34, 58]
}

/// The metadata of the acknowledgement of `request_id`: the JSON object
/// `{"request_id":N}` with `N` in decimal.
pub open spec fn ack_metadata(request_id: u64) -> Seq<u8> {
    ack_prefix() + decimal_digits(request_id as nat) + seq![125u8]
}

/// `serde_json::to_vec` of a `u64`, with its error turned into `None`.
/// serde_json writes an unsigned integer as its decimal digits (through
/// `itoa`) into a `Vec`, which cannot fail, so the result is `Some` of
/// [`decimal_digits`].
#[verifier::external_body]
fn json_u64(value: u64) -> (encoded: Option<Vec<u8>>)
    ensures
        encoded is Some,
        encoded->Some_0@ == decimal_digits(value as nat),
{
    serde_json::to_vec(&value).ok()
}

/// The acknowledgement of the batch with `request_id`: its metadata is the JSON
/// object `{"request_id":N}`.
pub fn acknowledgement(request_id: u64) -> (ack: Result<PutResult, Status>)
    ensures
        ack matches Ok(result) && result.app_metadata@ == ack_metadata(request_id),
{
    let mut digits = match json_u64(request_id) {
        Some(bytes) => bytes,
        None => {
            return Err(Status::internal("failed to serialize acknowledgement"));
        },
    };
    let mut app_metadata: Vec<u8> = vec![123u8, 34, 114, 101, 113, 117, 101, 115, 116, 95, 105, 100, 34, 58];
    assert(app_metadata@ == ack_prefix());
    app_metadata.append(&mut digits);
    app_metadata.push(125u8);
    assert(app_metadata@ == ack_metadata(request_id));
    Ok(PutResult { app_metadata })
}

/// Reading the decimal digits of a number gives the number back.
pub proof fn lemma_decimal_round_trip(n: nat)
    ensures
        decimal_value(decimal_digits(n)) == n,
        decimal_digits(n).len() >= 1,
        forall|i: int| 0 <= i < decimal_digits(n).len() ==> 48 <= #[trigger] decimal_digits(n)[i] <= 57,
    decreases n,
{
    if n < 10 {
        let d = decimal_digits(n);
        assert(d.drop_last() =~= Seq::<u8>::empty());
        assert(decimal_value(d.drop_last()) == 0);
    } else {
        lemma_decimal_round_trip(n / 10);
        let d = decimal_digits(n);
        assert(d.drop_last() =~= decimal_digits(n / 10));
        assert((n / 10) * 10 + n % 10 == n) by (nonlinear_arith);
    }
}

/// Different request ids are acknowledged with different metadata, so an
/// acknowledgement names exactly one request.
pub proof fn lemma_ack_metadata_injective(a: u64, b: u64)
    requires
        ack_metadata(a) == ack_metadata(b),
    ensures
        a == b,
{
    let da = decimal_digits(a as nat);
    let db = decimal_digits(b as nat);
    let ma = ack_metadata(a);
    let mb = ack_metadata(b);
    assert(ma.len() == 15 + da.len());
    assert(mb.len() == 15 + db.len());
    assert(ma.subrange(14, ma.len() - 1) =~= da);
    assert(mb.subrange(14, mb.len() - 1) =~= db);
    lemma_decimal_round_trip(a as nat);
    lemma_decimal_round_trip(b as nat);
}

} // verus!
