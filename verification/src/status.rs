//! The outcome reported to a client when a request fails.

use vstd::prelude::*;

verus! {

/// The kind of failure, in the terms of the gRPC status codes that the service uses.
#[derive(Clone, Copy, Debug, PartialEq, Eq)]
pub enum Code {
    Cancelled,
    InvalidArgument,
    NotFound,
    Internal,
    ResourceExhausted,
}

/// A failure sent back to the client: its code and a human-readable message.
#[derive(Clone, Debug, PartialEq, Eq)]
pub struct Status {
    pub code: Code,
    pub message: String,
}

/// A status as a mathematical value: its code and the characters of its message.
pub type StatusView = (Code, Seq<char>);

impl View for Status {
    type V = StatusView;

    open spec fn view(&self) -> StatusView {
        (self.code, self.message@)
    }
}

impl Status {
    /// A status with the given code and message.
    pub fn new(code: Code, message: &str) -> (status: Status)
        ensures
            status@ == (code, message@),
    {
        Status { code, message: message.to_owned() }
    }

    /// The request was abandoned because the server is shutting down.
    pub fn cancelled(message: &str) -> (status: Status)
        ensures
            status@ == (Code::Cancelled, message@),
    {
        Status::new(Code::Cancelled, message)
    }

    /// The client sent something the service cannot accept.
    pub fn invalid_argument(message: &str) -> (status: Status)
        ensures
            status@ == (Code::InvalidArgument, message@),
    {
        Status::new(Code::InvalidArgument, message)
    }

    /// The target of the request does not exist.
    pub fn not_found(message: &str) -> (status: Status)
        ensures
            status@ == (Code::NotFound, message@),
    {
        Status::new(Code::NotFound, message)
    }

    /// The service failed on its side.
    pub fn internal(message: &str) -> (status: Status)
        ensures
            status@ == (Code::Internal, message@),
    {
        Status::new(Code::Internal, message)
    }

    /// A limit of the service was reached.
    pub fn resource_exhausted(message: &str) -> (status: Status)
        ensures
            status@ == (Code::ResourceExhausted, message@),
    {
        Status::new(Code::ResourceExhausted, message)
    }
}

} // verus!
