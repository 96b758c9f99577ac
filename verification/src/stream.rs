//! The record batch stream of one ingestion request, as a state machine.
//!
//! The service's event loop waits for whichever comes first: cancellation, the
//! next input message (only while the stream can take another write), or the
//! end of a running write. It hands that event to [`StreamState::step`], which
//! decides what to do, and carries the decision out: it sends a rejection and
//! ends the stream, starts a write, sends an acknowledgement, or goes on.

use vstd::prelude::*;

use crate::errors::{write_status, write_status_view, WriteError};
use crate::metadata::{
    ack_metadata, acknowledgement, parse_request_metadata, request_outcome, PutResult, RequestMetadata,
};
use crate::permit::{
    covers_exactly, lemma_batch_charged_in_started_kibibytes, limit_status_view, permit_ceiling, permit_source,
    permits_for_bytes, IngestionPermit, IngestionSemaphore, Limit,
};
use crate::status::{Code, Status, StatusView};

verus! {

/// Where a stream stands: whether its input has ended, and how many of its
/// writes are running.
#[derive(Clone, Copy, Debug, PartialEq, Eq)]
pub struct StreamState {
    pub input_done: bool,
    pub in_flight: usize,
}

/// A message read from the input, once the schema message is behind.
#[derive(Clone, Copy, Debug, PartialEq, Eq)]
pub enum InputMessage {
    /// A second schema message.
    Schema,
    /// A record batch: its metadata decoded as request metadata (`None` when
    /// that decoding failed) and the estimated memory size of its arrays.
    RecordBatch { metadata: Option<RequestMetadata>, memory_size: usize },
    /// A message with neither schema nor record batch.
    Empty,
    /// Data that could not be decoded as Flight data.
    Invalid,
    /// The input ended.
    End,
}

/// How a running write ended.
#[derive(Clone, Copy, Debug, PartialEq, Eq)]
pub enum TaskOutcome {
    /// The batch with this request id was written.
    Written { request_id: u64 },
    /// The write failed.
    WriteFailed(WriteError),
    /// The write's task panicked or was aborted.
    Panicked,
    /// There was no running write to wait for.
    NoTask,
}

/// What the event loop of a stream observed.
#[derive(Clone, Copy, Debug, PartialEq, Eq)]
pub enum StreamEvent {
    /// The server is shutting down.
    Cancelled,
    /// A message arrived on the input.
    Input(InputMessage),
    /// A running write ended.
    Task(TaskOutcome),
}

/// What the event loop is to do next.
pub enum StreamAction {
    /// End the stream without a reply.
    Stop,
    /// Send this status to the client and end the stream.
    Reject(Status),
    /// Start writing the batch with this request id; the permit is held until
    /// the write ends.
    Write { request_id: u64, permit: IngestionPermit },
    /// Send this acknowledgement to the client; the stream ends when it cannot
    /// be delivered.
    Acknowledge(PutResult),
    /// Wait for the next event.
    Continue,
}

/// A decision as a mathematical value. Admitting a batch depends on the
/// permits free at that moment, so its plan names the batch, not the outcome.
pub enum Plan {
    Stop,
    Reject(StatusView),
    Admit { request_id: u64, batch_bytes: u64 },
    Acknowledge(u64),
    Continue,
}

/// The decision on a record batch: its request id, else the rejection of its metadata.
pub open spec fn record_batch_plan(state: StreamState, metadata: Option<RequestMetadata>, memory_size: usize) -> (StreamState, Plan) {
    match request_outcome(metadata) {
        Err(status) => (state, Plan::Reject(status)),
        Ok(request_id) => (
            StreamState { in_flight: (state.in_flight + 1) as usize, ..state },
            Plan::Admit { request_id, batch_bytes: memory_size as u64 },
        ),
    }
}

/// The next state of a stream and the decision taken on an event.
pub open spec fn next(state: StreamState, event: StreamEvent) -> (StreamState, Plan) {
    match event {
        StreamEvent::Cancelled => (state, Plan::Stop),
        StreamEvent::Input(message) => match message {
            InputMessage::Schema => (state, Plan::Reject((Code::InvalidArgument, "schema message must be first"@))),
            InputMessage::RecordBatch { metadata, memory_size } => record_batch_plan(state, metadata, memory_size),
            InputMessage::Empty => (state, Plan::Reject((Code::InvalidArgument, "record batch is required"@))),
            InputMessage::Invalid => (state, Plan::Reject((Code::InvalidArgument, "invalid Arrow Flight data"@))),
            InputMessage::End => (StreamState { input_done: true, ..state }, Plan::Continue),
        },
        StreamEvent::Task(outcome) => match outcome {
            TaskOutcome::Written { request_id } => (
                StreamState { in_flight: (state.in_flight - 1) as usize, ..state },
                Plan::Acknowledge(request_id),
            ),
            TaskOutcome::WriteFailed(error) => (
                StreamState { in_flight: (state.in_flight - 1) as usize, ..state },
                Plan::Reject(write_status_view(error)),
            ),
            TaskOutcome::Panicked => (
                StreamState { in_flight: (state.in_flight - 1) as usize, ..state },
                Plan::Reject((Code::Internal, "ingestion task failed"@)),
            ),
            TaskOutcome::NoTask => (state, Plan::Continue),
        },
    }
}

/// Whether an event can reach a stream with write limit `limit`: input is read
/// only while it has not ended and a write slot is free, and a write ends only
/// while one is running.
pub open spec fn can_happen(state: StreamState, event: StreamEvent, limit: nat) -> bool {
    match event {
        StreamEvent::Cancelled => true,
        StreamEvent::Input(_) => !state.input_done && state.in_flight < limit,
        StreamEvent::Task(outcome) => match outcome {
            TaskOutcome::NoTask => true,
            _ => state.in_flight > 0,
        },
    }
}

/// Whether a stream reads its next input message: only while the input has not
/// ended, fewer writes run than the limit, and a write slot is free.
pub open spec fn reads_input_spec(state: StreamState, limit: nat, slot_free: bool) -> bool {
    !state.input_done && state.in_flight < limit && slot_free
}

/// The decision on a record batch with a valid request id: either its write
/// starts, holding one write slot and, from each memory semaphore, the permits
/// for the batch's own estimated size (the fewest kibibytes that hold it, below
/// the cap); or the stream is rejected for a limit, unchanged.
pub open spec fn batch_decided(state: StreamState, result: (StreamState, StreamAction), request_id: u64, memory_size: usize) -> bool {
    match result.1 {
        StreamAction::Write { request_id: written, permit } => {
            &&& written == request_id
            &&& result.0 == (StreamState { in_flight: (state.in_flight + 1) as usize, ..state })
            &&& permit.write_permits() == 1
            &&& permit.stream_memory_permits() == permits_for_bytes(memory_size as u64)
            &&& permit.global_memory_permits() == permits_for_bytes(memory_size as u64)
            &&& memory_size <= permit_ceiling() * 1024 ==> covers_exactly(
                permit.stream_memory_permits(),
                memory_size as u64,
            )
        },
        StreamAction::Reject(status) => result.0 == state && status.code == Code::ResourceExhausted,
        _ => false,
    }
}

/// The decision on a failed write: one write fewer runs, and the stream ends
/// with the failure's own status.
pub open spec fn failed_write_rejected(state: StreamState, result: (StreamState, StreamAction), error: WriteError) -> bool {
    &&& result.0 == (StreamState { in_flight: (state.in_flight - 1) as usize, ..state })
    &&& result.1 matches StreamAction::Reject(status)
    &&& status@ == write_status_view(error)
}

/// Whether an action carries out a decision that names its outcome.
pub open spec fn carries_out(action: StreamAction, plan: Plan) -> bool {
    match plan {
        Plan::Stop => action is Stop,
        Plan::Reject(status) => action matches StreamAction::Reject(s) && s@ == status,
        Plan::Acknowledge(request_id) => action matches StreamAction::Acknowledge(ack) && ack.app_metadata@
            == ack_metadata(request_id),
        Plan::Continue => action is Continue,
        Plan::Admit { .. } => false,
    }
}

impl StreamState {
    /// A stream whose input is open and that runs no write.
    pub fn new() -> (state: StreamState)
        ensures
            !state.input_done,
            state.in_flight == 0,
    {
        StreamState { input_done: false, in_flight: 0 }
    }

    /// Whether the stream is over: its input ended and all its writes ended.
    pub fn is_complete(&self) -> (complete: bool)
        ensures
            complete == (self.input_done && self.in_flight == 0),
    {
        self.input_done && self.in_flight == 0
    }

    /// Whether to read the next input message, given the write limit and whether
    /// a write slot is free: only while the input has not ended, fewer writes
    /// run than the limit, and a slot is free.
    pub fn reads_input(&self, max_in_flight_writes: usize, slot_free: bool) -> (reads: bool)
        ensures
            reads == reads_input_spec(*self, max_in_flight_writes as nat, slot_free),
    {
        !self.input_done && self.in_flight < max_in_flight_writes && slot_free
    }

    /// Whether to read the next input message now: [`StreamState::reads_input`]
    /// with the stream's write limit and, once the other conditions hold, what
    /// the write semaphore reports of a free slot. Whether a slot is free
    /// depends on writes ending concurrently, so the answer is only known to be
    /// `false` when the other conditions fail.
    pub fn accepts_input(&self, semaphore: &IngestionSemaphore) -> (accepts: bool)
        ensures
            accepts ==> !self.input_done && self.in_flight < semaphore.write_limit(),
    {
        let limit = semaphore.max_in_flight_writes();
        if self.input_done || self.in_flight >= limit {
            return false;
        }
        self.reads_input(limit, semaphore.has_write_capacity())
    }

    /// Decides on a record batch with request id `request_id` once the limits
    /// have answered: with a permit its write starts, holding the permit;
    /// otherwise the stream is rejected with the status the limits gave.
    pub fn on_admission(self, request_id: u64, admitted: Result<IngestionPermit, Status>) -> (result: (StreamState, StreamAction))
        requires
            self.in_flight < usize::MAX,
        ensures
            match admitted {
                Ok(permit) => {
                    &&& result.0 == (StreamState { in_flight: (self.in_flight + 1) as usize, ..self })
                    &&& result.1 matches StreamAction::Write { request_id: written, permit: held }
                    &&& written == request_id
                    &&& held == permit
                },
                Err(status) => {
                    &&& result.0 == self
                    &&& result.1 matches StreamAction::Reject(rejection)
                    &&& rejection == status
                },
            },
    {
        match admitted {
            Ok(permit) => (
                StreamState { in_flight: self.in_flight + 1, ..self },
                StreamAction::Write { request_id, permit },
            ),
            Err(status) => (self, StreamAction::Reject(status)),
        }
    }

    /// Decides on an event. A record batch is admitted with the permits for its
    /// estimated size, or rejected with the status of the limit it hit; every
    /// other decision is the one [`next`] gives.
    pub fn step(self, event: StreamEvent, semaphore: &IngestionSemaphore) -> (result: (StreamState, StreamAction))
        requires
            can_happen(self, event, semaphore.write_limit()),
        ensures
            match next(self, event).1 {
                Plan::Admit { request_id, batch_bytes } => match result.1 {
                    StreamAction::Write { request_id: written, permit } => {
                        &&& written == request_id
                        &&& result.0 == next(self, event).0
                        &&& permit.write_permits() == 1
                        &&& permit.stream_memory_permits() == permits_for_bytes(batch_bytes)
                        &&& permit.global_memory_permits() == permits_for_bytes(batch_bytes)
                        &&& permit_source(permit.parts().0) == semaphore.write_semaphore()
                        &&& permit_source(permit.parts().1) == semaphore.stream_memory_semaphore()
                        &&& permit_source(permit.parts().2) == semaphore.shared_memory()
                    },
                    StreamAction::Reject(status) => {
                        &&& result.0 == self
                        &&& exists|limit: Limit| status@ == limit_status_view(limit)
                    },
                    _ => false,
                },
                plan => result.0 == next(self, event).0 && carries_out(result.1, plan),
            },
            match event {
                StreamEvent::Input(InputMessage::RecordBatch { metadata: Some(m), memory_size }) => m.request_id != 0
                    ==> batch_decided(self, result, m.request_id, memory_size),
                StreamEvent::Task(TaskOutcome::WriteFailed(error)) => failed_write_rejected(self, result, error),
                _ => true,
            },
    {
        match event {
            StreamEvent::Cancelled => (self, StreamAction::Stop),
            StreamEvent::Input(message) => match message {
                InputMessage::Schema => (
                    self,
                    StreamAction::Reject(Status::invalid_argument("schema message must be first")),
                ),
                InputMessage::RecordBatch { metadata, memory_size } => {
                    let request_id = match parse_request_metadata(metadata) {
                        Ok(request_id) => request_id,
                        Err(status) => {
                            return (self, StreamAction::Reject(status));
                        },
                    };
                    let batch_bytes = memory_size as u64;
                    proof {
                        semaphore.lemma_write_limit_fits();
                        if batch_bytes <= permit_ceiling() * 1024 {
                            lemma_batch_charged_in_started_kibibytes(batch_bytes);
                        }
                    }
                    self.on_admission(request_id, semaphore.try_acquire(batch_bytes))
                },
                InputMessage::Empty => (
                    self,
                    StreamAction::Reject(Status::invalid_argument("record batch is required")),
                ),
                InputMessage::Invalid => (
                    self,
                    StreamAction::Reject(Status::invalid_argument("invalid Arrow Flight data")),
                ),
                InputMessage::End => (StreamState { input_done: true, ..self }, StreamAction::Continue),
            },
            StreamEvent::Task(outcome) => match outcome {
                TaskOutcome::Written { request_id } => {
                    let state = StreamState { in_flight: self.in_flight - 1, ..self };
                    match acknowledgement(request_id) {
                        Ok(ack) => (state, StreamAction::Acknowledge(ack)),
                        Err(status) => (state, StreamAction::Reject(status)),
                    }
                },
                TaskOutcome::WriteFailed(error) => (
                    StreamState { in_flight: self.in_flight - 1, ..self },
                    StreamAction::Reject(write_status(error)),
                ),
                TaskOutcome::Panicked => (
                    StreamState { in_flight: self.in_flight - 1, ..self },
                    StreamAction::Reject(Status::internal("ingestion task failed")),
                ),
                TaskOutcome::NoTask => (self, StreamAction::Continue),
            },
        }
    }
}

/// What to do once an acknowledgement was handed to the reply stream: go on
/// when it was delivered, and end the stream without a reply when the client's
/// side of the reply stream is gone.
pub fn after_acknowledgement(delivered: bool) -> (action: StreamAction)
    ensures
        delivered ==> action is Continue,
        !delivered ==> action is Stop,
{
    if delivered {
        StreamAction::Continue
    } else {
        StreamAction::Stop
    }
}

/// A record batch with a valid request id is admitted for its own estimated
/// size, under its own request id, as one more running write.
pub proof fn lemma_batch_admitted_for_its_size(state: StreamState, metadata: RequestMetadata, memory_size: usize)
    requires
        metadata.request_id != 0,
    ensures
        next(state, StreamEvent::Input(InputMessage::RecordBatch { metadata: Some(metadata), memory_size })) == (
            StreamState { in_flight: (state.in_flight + 1) as usize, ..state },
            Plan::Admit { request_id: metadata.request_id, batch_bytes: memory_size as u64 },
        ),
{
}

/// Every failed write ends the stream with its own error: the client's fault
/// for a batch the table cannot take, the service's for a failed flush; the
/// message is the error's text.
pub proof fn lemma_failed_write_ends_stream(state: StreamState, error: WriteError)
    requires
        state.in_flight > 0,
    ensures
        next(state, StreamEvent::Task(TaskOutcome::WriteFailed(error))).1 == Plan::Reject(
            (
                if error is Flush {
                    Code::Internal
                } else {
                    Code::InvalidArgument
                },
                error.spec_message(),
            ),
        ),
        next(state, StreamEvent::Task(TaskOutcome::WriteFailed(error))).0.in_flight == state.in_flight - 1,
{
}

/// A stream never runs more writes than its limit: the bound holds after every
/// event that can reach it.
pub proof fn lemma_in_flight_within_limit(state: StreamState, event: StreamEvent, limit: nat)
    requires
        state.in_flight <= limit,
        can_happen(state, event, limit),
    ensures
        next(state, event).0.in_flight <= limit,
{
}

/// The state after a run of events, each decided on in turn.
pub open spec fn run(state: StreamState, events: Seq<StreamEvent>) -> StreamState
    decreases events.len(),
{
    if events.len() == 0 {
        state
    } else {
        run(next(state, events[0]).0, events.drop_first())
    }
}

/// Whether each event of a run can reach the state the run has come to.
pub open spec fn run_can_happen(state: StreamState, events: Seq<StreamEvent>, limit: nat) -> bool
    decreases events.len(),
{
    events.len() == 0 || (can_happen(state, events[0], limit) && run_can_happen(
        next(state, events[0]).0,
        events.drop_first(),
        limit,
    ))
}

/// However long a stream runs, it never runs more writes than its limit, and
/// once its input has ended it stays ended.
pub proof fn lemma_runs_stay_within_limit(state: StreamState, events: Seq<StreamEvent>, limit: nat)
    requires
        state.in_flight <= limit,
        run_can_happen(state, events, limit),
    ensures
        run(state, events).in_flight <= limit,
        state.input_done ==> run(state, events).input_done,
    decreases events.len(),
{
    if events.len() > 0 {
        lemma_in_flight_within_limit(state, events[0], limit);
        lemma_runs_stay_within_limit(next(state, events[0]).0, events.drop_first(), limit);
    }
}

/// Once the input has ended it stays ended, and no more input is read.
pub proof fn lemma_input_end_is_final(state: StreamState, event: StreamEvent, limit: nat)
    requires
        state.input_done,
    ensures
        next(state, event).0.input_done,
        !can_happen(next(state, event).0, StreamEvent::Input(InputMessage::End), limit),
{
}

/// Only batches with a nonzero request id are written, and each with the id
/// from its own metadata.
pub proof fn lemma_admitted_ids_are_nonzero(state: StreamState, event: StreamEvent)
    ensures
        next(state, event).1 matches Plan::Admit { request_id, .. } ==> {
            &&& request_id != 0
            &&& event matches StreamEvent::Input(InputMessage::RecordBatch { metadata, .. })
            &&& metadata == Some(RequestMetadata { request_id })
        },
{
}

/// Cancellation ends the stream at once, whatever its state.
pub proof fn lemma_cancellation_stops(state: StreamState)
    ensures
        next(state, StreamEvent::Cancelled) == (state, Plan::Stop),
{
}

} // verus!
