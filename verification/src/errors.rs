//! The failures of table ingestion, and the status each one is reported with.

use vstd::prelude::*;
use vstd::string::StringExecFns;

use crate::status::{Code, Status, StatusView};

verus! {

/// The error type for ingestion operations.
#[derive(Clone, Debug, PartialEq, Eq)]
#[non_exhaustive]
pub enum Error {
    /// The requested catalog does not exist; it holds the catalog's name.
    CatalogNotFound(String),
    /// The requested table does not exist; it holds the table's identifier.
    TableNotFound(String),
}

/// The error type for record batch writes.
#[derive(Clone, Copy, Debug, PartialEq, Eq)]
#[non_exhaustive]
pub enum WriteError {
    /// The record batch schema does not match the table schema.
    InvalidSchema,
    /// The record batch contains no rows.
    EmptyBatch,
    /// The record batch could not be flushed.
    Flush,
}

impl Error {
    /// The text of the error: what was not found, and its name.
    pub open spec fn spec_message(self) -> Seq<char> {
        match self {
            Error::CatalogNotFound(name) => "catalog not found: "@ + name@,
            Error::TableNotFound(table) => "table not found: "@ + table@,
        }
    }

    /// The text of the error: what was not found, and its name.
    pub fn message(&self) -> (text: String)
        ensures
            text@ == self.spec_message(),
    {
        match self {
            Error::CatalogNotFound(name) => "catalog not found: ".to_owned().concat(name.as_str()),
            Error::TableNotFound(table) => "table not found: ".to_owned().concat(table.as_str()),
        }
    }
}

impl WriteError {
    /// The text of the error.
    pub open spec fn spec_message(self) -> Seq<char> {
        match self {
            WriteError::InvalidSchema => "invalid record batch schema"@,
            WriteError::EmptyBatch => "record batch is empty"@,
            WriteError::Flush => "failed to flush record batch"@,
        }
    }

    /// The text of the error.
    pub fn message(&self) -> (text: String)
        ensures
            text@ == self.spec_message(),
    {
        match self {
            WriteError::InvalidSchema => "invalid record batch schema".to_owned(),
            WriteError::EmptyBatch => "record batch is empty".to_owned(),
            WriteError::Flush => "failed to flush record batch".to_owned(),
        }
    }
}

/// The status a failed write is reported with: the client's fault for a batch
/// that does not fit the table, the service's for a failed flush; the message
/// is the error's own text.
pub open spec fn write_status_view(error: WriteError) -> StatusView {
    match error {
        WriteError::InvalidSchema => (Code::InvalidArgument, error.spec_message()),
        WriteError::EmptyBatch => (Code::InvalidArgument, error.spec_message()),
        WriteError::Flush => (Code::Internal, error.spec_message()),
    }
}

/// The status a failed write is reported with.
pub fn write_status(error: WriteError) -> (status: Status)
    ensures
        status@ == write_status_view(error),
{
    let message = error.message();
    match error {
        WriteError::InvalidSchema => Status { code: Code::InvalidArgument, message },
        WriteError::EmptyBatch => Status { code: Code::InvalidArgument, message },
        WriteError::Flush => Status { code: Code::Internal, message },
    }
}

/// The status a failure to open a table is reported with.
pub open spec fn ingestion_status_view(error: Error) -> StatusView {
    match error {
        Error::CatalogNotFound(_) => (Code::NotFound, "catalog not found"@),
        Error::TableNotFound(_) => (Code::NotFound, "table not found"@),
    }
}

/// The status a failure to open a table is reported with.
pub fn ingestion_status(error: &Error) -> (status: Status)
    ensures
        status@ == ingestion_status_view(*error),
{
    match error {
        Error::CatalogNotFound(_) => Status::not_found("catalog not found"),
        Error::TableNotFound(_) => Status::not_found("table not found"),
    }
}

} // verus!
