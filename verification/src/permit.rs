//! Admission control: the concurrency and memory limits of one ingestion stream.
//!
//! Each stream owns a semaphore of write slots and a semaphore of memory
//! permits, and all streams share one semaphore of memory permits. A record
//! batch is admitted only when it gets one write slot and, from both memory
//! semaphores, one permit per started kibibyte of its estimated size.

use std::sync::Arc;
use tokio::sync::{OwnedSemaphorePermit, Semaphore, TryAcquireError};
use vstd::prelude::*;

use crate::options::IngestionOptions;
use crate::status::{Code, Status, StatusView};

verus! {

/// The number of bytes that one memory permit stands for.
pub const MEMORY_PERMIT_BYTES: u64 = 1024;

#[verifier::external_type_specification]
#[verifier::external_body]
pub struct ExSemaphore(tokio::sync::Semaphore);

#[verifier::external_type_specification]
#[verifier::external_body]
pub struct ExOwnedSemaphorePermit(tokio::sync::OwnedSemaphorePermit);

#[verifier::external_type_specification]
#[verifier::external_body]
pub struct ExTryAcquireError(tokio::sync::TryAcquireError);

/// The number of permits a tokio semaphore, seen as a pool of permits, was
/// created with. It is a name, not a definition: only [`new_semaphore`]
/// speaks of it, fixing it to the count handed to `Semaphore::new`.
pub uninterp spec fn initial_permits(semaphore: Semaphore) -> nat;

/// The number of permits that an acquired tokio permit holds and gives back to
/// its semaphore when dropped (what `OwnedSemaphorePermit::num_permits`
/// returns). It is a name, not a definition: only the acquiring wrappers
/// speak of it, fixing it to the count they asked for.
pub uninterp spec fn held_permits(permit: OwnedSemaphorePermit) -> nat;

/// The semaphore an acquired tokio permit was drawn from and goes back to when
/// dropped (what `OwnedSemaphorePermit::semaphore` points to). It is a name,
/// not a definition: only the acquiring wrappers speak of it, fixing it to the
/// semaphore they were called on.
pub uninterp spec fn permit_source(permit: OwnedSemaphorePermit) -> Semaphore;

/// `Semaphore::MAX_PERMITS`: tokio documents it as `usize::MAX >> 3`, that is
/// `usize::MAX / 8`; a semaphore cannot hold more permits than this.
#[verifier::external_body]
fn max_semaphore_permits() -> (max: usize)
    ensures
        max == usize::MAX / 8,
{
    Semaphore::MAX_PERMITS
}

/// `Semaphore::new`, shared behind an `Arc`: the new semaphore holds exactly
/// `permits` permits. tokio panics when `permits` exceeds `MAX_PERMITS`, so
/// that input is left out.
#[verifier::external_body]
fn new_semaphore(permits: usize) -> (semaphore: Arc<Semaphore>)
    requires
        permits <= usize::MAX / 8,
    ensures
        initial_permits(*semaphore) == permits,
{
    Arc::new(Semaphore::new(permits))
}

/// `Semaphore::available_permits`. The count moves as other tasks acquire and
/// release permits, so nothing is stated of it.
#[verifier::external_body]
fn available_permits(semaphore: &Arc<Semaphore>) -> usize {
    semaphore.available_permits()
}

/// `Semaphore::try_acquire_owned` on a new handle of the shared semaphore.
/// Whether it succeeds depends on the permits other tasks hold, so only this is
/// stated: an acquired permit holds exactly one permit, drawn from this
/// semaphore.
#[verifier::external_body]
fn try_acquire_one(semaphore: &Arc<Semaphore>) -> (acquired: Result<OwnedSemaphorePermit, TryAcquireError>)
    ensures
        acquired matches Ok(permit) ==> held_permits(permit) == 1 && permit_source(permit) == **semaphore,
{
    Arc::clone(semaphore).try_acquire_owned()
}

/// `Semaphore::try_acquire_many_owned` on a new handle of the shared semaphore.
/// Whether it succeeds depends on the permits other tasks hold, so only this is
/// stated: an acquired permit holds exactly `n` permits, drawn from this
/// semaphore. tokio panics when `n` exceeds `MAX_PERMITS`, so that input is
/// left out.
#[verifier::external_body]
fn try_acquire_many(semaphore: &Arc<Semaphore>, n: u32) -> (acquired: Result<OwnedSemaphorePermit, TryAcquireError>)
    requires
        n <= usize::MAX / 8,
    ensures
        acquired matches Ok(permit) ==> held_permits(permit) == n && permit_source(permit) == **semaphore,
{
    Arc::clone(semaphore).try_acquire_many_owned(n)
}

/// The most memory permits one batch may ask for: a semaphore's own maximum,
/// and no more than a `u32` can count.
pub open spec fn permit_ceiling() -> nat {
    if usize::MAX / 8 <= u32::MAX {
        (usize::MAX / 8) as nat
    } else {
        u32::MAX as nat
    }
}

/// The number of kibibytes, rounded up, that `bytes` bytes start.
pub open spec fn kibibytes_started(bytes: u64) -> nat {
    ((bytes + 1023) / 1024) as nat
}

/// The memory permits that `bytes` bytes take: one per started kibibyte, capped
/// at [`permit_ceiling`].
pub open spec fn permits_for_bytes(bytes: u64) -> nat {
    if kibibytes_started(bytes) <= permit_ceiling() {
        kibibytes_started(bytes)
    } else {
        permit_ceiling()
    }
}

/// Whether `permits` kibibytes are the fewest that hold `bytes` bytes.
pub open spec fn covers_exactly(permits: nat, bytes: u64) -> bool {
    &&& permits * 1024 >= bytes
    &&& bytes > 0 ==> (permits - 1) * 1024 < bytes
}

/// Whether `permits` kibibytes are the most that fit in `bytes` bytes.
pub open spec fn fills_exactly(permits: nat, bytes: u64) -> bool {
    &&& permits * 1024 <= bytes
    &&& bytes < (permits + 1) * 1024
}

/// The fewest kibibytes that hold `bytes` bytes, and the most that fit in them.
proof fn lemma_kibibytes(bytes: u64)
    ensures
        covers_exactly(kibibytes_started(bytes), bytes),
        fills_exactly((bytes / 1024) as nat, bytes),
        kibibytes_started(bytes) <= permit_ceiling() <==> bytes <= permit_ceiling() * 1024,
        (bytes / 1024) <= permit_ceiling() <==> bytes < (permit_ceiling() + 1) * 1024,
{
    let c = permit_ceiling();
    let p = (bytes + 1023) / 1024;
    let q = bytes / 1024;
    assert(p * 1024 >= bytes && (bytes > 0 ==> (p - 1) * 1024 < bytes)) by (nonlinear_arith)
        requires p == (bytes + 1023) / 1024, bytes >= 0;
    assert(q * 1024 <= bytes && bytes < (q + 1) * 1024) by (nonlinear_arith)
        requires q == bytes / 1024, bytes >= 0;
    assert(p <= c <==> bytes <= c * 1024) by (nonlinear_arith)
        requires p * 1024 >= bytes, bytes > 0 ==> (p - 1) * 1024 < bytes, p >= 0, c >= 0, bytes >= 0, bytes == 0 ==> p == 0;
    assert(q <= c <==> bytes < (c + 1) * 1024) by (nonlinear_arith)
        requires q * 1024 <= bytes, bytes < (q + 1) * 1024, q >= 0, c >= 0;
}

/// The memory permits that `bytes` bytes take: one per started kibibyte of
/// [`MEMORY_PERMIT_BYTES`], capped so that a semaphore can always hold them.
/// Below the cap they are the fewest kibibytes that hold the bytes.
pub fn memory_permits(bytes: u64) -> (permits: u32)
    ensures
        permits == permits_for_bytes(bytes),
        permits <= permit_ceiling(),
        permits <= usize::MAX / 8,
        permits == 0 <==> bytes == 0,
        bytes <= permit_ceiling() * 1024 ==> covers_exactly(permits as nat, bytes),
        bytes > permit_ceiling() * 1024 ==> permits == permit_ceiling(),
{
    proof {
        lemma_kibibytes(bytes);
    }
    let semaphore_max: u64 = max_semaphore_permits() as u64;
    let ceiling: u64 = if semaphore_max <= u32::MAX as u64 {
        semaphore_max
    } else {
        u32::MAX as u64
    };
    let whole: u64 = bytes / MEMORY_PERMIT_BYTES;
    let started: u64 = if bytes % MEMORY_PERMIT_BYTES == 0 {
        whole
    } else {
        whole + 1
    };
    assert(started == kibibytes_started(bytes));
    let permits: u64 = if started <= ceiling {
        started
    } else {
        ceiling
    };
    permits as u32
}

/// The memory permits a budget of `bytes` bytes holds: one per whole kibibyte,
/// so that batches holding them never take more than `bytes` bytes, capped at
/// [`permit_ceiling`].
pub open spec fn permits_for_budget(bytes: u64) -> nat {
    if bytes / 1024 <= permit_ceiling() {
        (bytes / 1024) as nat
    } else {
        permit_ceiling()
    }
}

/// The memory permits that a budget of `bytes` bytes holds: one per whole
/// kibibyte of [`MEMORY_PERMIT_BYTES`], so that the batches holding them
/// together never exceed the budget; capped so that a semaphore can hold them.
pub fn budget_permits(bytes: u64) -> (permits: u32)
    ensures
        permits == permits_for_budget(bytes),
        permits <= usize::MAX / 8,
        bytes < (permit_ceiling() + 1) * 1024 ==> fills_exactly(permits as nat, bytes),
        bytes >= (permit_ceiling() + 1) * 1024 ==> permits == permit_ceiling(),
{
    proof {
        lemma_kibibytes(bytes);
    }
    let semaphore_max: u64 = max_semaphore_permits() as u64;
    let ceiling: u64 = if semaphore_max <= u32::MAX as u64 {
        semaphore_max
    } else {
        u32::MAX as u64
    };
    let whole: u64 = bytes / MEMORY_PERMIT_BYTES;
    let permits: u64 = if whole <= ceiling {
        whole
    } else {
        ceiling
    };
    permits as u32
}

/// A budget keeps every whole kibibyte it has: below the cap its permits are
/// the most kibibytes that fit in it, so a budget never loses a whole kibibyte
/// and never gains a partial one.
pub proof fn lemma_budget_keeps_whole_kibibytes(bytes: u64)
    requires
        bytes < (permit_ceiling() + 1) * 1024,
    ensures
        permits_for_budget(bytes) * 1024 <= bytes,
        bytes < (permits_for_budget(bytes) + 1) * 1024,
{
    lemma_kibibytes(bytes);
}

/// A batch is charged the fewest kibibytes that hold it: below the cap, its
/// permits stand for at least its bytes, and one permit fewer would not.
pub proof fn lemma_batch_charged_in_started_kibibytes(bytes: u64)
    requires
        bytes <= permit_ceiling() * 1024,
    ensures
        permits_for_bytes(bytes) * 1024 >= bytes,
        bytes > 0 ==> (permits_for_bytes(bytes) - 1) * 1024 < bytes,
{
    lemma_kibibytes(bytes);
}

/// More bytes never take fewer memory permits.
pub proof fn lemma_memory_permits_monotone(smaller: u64, larger: u64)
    requires
        smaller <= larger,
    ensures
        permits_for_bytes(smaller) <= permits_for_bytes(larger),
{
    assert((smaller + 1023) / 1024 <= (larger + 1023) / 1024) by (nonlinear_arith)
        requires smaller <= larger;
}

/// Below the cap, the permits cover the bytes exactly: they stand for at least
/// `bytes` bytes, and one permit fewer would stand for fewer than `bytes`.
pub proof fn lemma_memory_permits_cover(bytes: u64)
    requires
        kibibytes_started(bytes) <= permit_ceiling(),
    ensures
        permits_for_bytes(bytes) * 1024 >= bytes,
        bytes > 0 ==> (permits_for_bytes(bytes) - 1) * 1024 < bytes,
{
    let p = (bytes + 1023) / 1024;
    assert(p * 1024 >= bytes && (bytes > 0 ==> (p - 1) * 1024 < bytes)) by (nonlinear_arith)
        requires p == (bytes + 1023) / 1024, bytes >= 0;
}

/// The memory permits that batches of these estimated sizes hold together.
pub open spec fn permits_for_batches(sizes: Seq<u64>) -> nat
    decreases sizes.len(),
{
    if sizes.len() == 0 {
        0
    } else {
        permits_for_batches(sizes.drop_last()) + permits_for_bytes(sizes.last())
    }
}

/// The estimated bytes of these batches together.
pub open spec fn total_bytes(sizes: Seq<u64>) -> nat
    decreases sizes.len(),
{
    if sizes.len() == 0 {
        0
    } else {
        total_bytes(sizes.drop_last()) + sizes.last() as nat
    }
}

/// Batches below the cap take at least one byte of memory budget per byte:
/// their permits stand for at least their bytes.
pub proof fn lemma_batches_covered(sizes: Seq<u64>)
    requires
        forall|i: int| 0 <= i < sizes.len() ==> kibibytes_started(#[trigger] sizes[i]) <= permit_ceiling(),
    ensures
        total_bytes(sizes) <= permits_for_batches(sizes) * 1024,
    decreases sizes.len(),
{
    if sizes.len() > 0 {
        let rest = sizes.drop_last();
        assert forall|i: int| 0 <= i < rest.len() implies kibibytes_started(#[trigger] rest[i]) <= permit_ceiling() by {
            assert(rest[i] == sizes[i]);
        }
        lemma_batches_covered(rest);
        assert(kibibytes_started(sizes[sizes.len() - 1]) <= permit_ceiling());
        lemma_memory_permits_cover(sizes.last());
    }
}

/// The memory bound: batches whose permits all come out of the permits of a
/// budget of `limit` bytes (tokio never hands out more permits than a
/// semaphore holds) take at most `limit` bytes together.
pub proof fn lemma_batches_within_budget(sizes: Seq<u64>, limit: u64)
    requires
        forall|i: int| 0 <= i < sizes.len() ==> kibibytes_started(#[trigger] sizes[i]) <= permit_ceiling(),
        permits_for_batches(sizes) <= permits_for_budget(limit),
    ensures
        total_bytes(sizes) <= limit,
{
    lemma_batches_covered(sizes);
    assert((limit / 1024) * 1024 <= limit) by (nonlinear_arith);
}

/// The limits that can refuse a batch.
#[derive(Clone, Copy, Debug, PartialEq, Eq)]
pub enum Limit {
    /// The concurrent writes of the stream.
    Writes,
    /// The memory of the stream.
    StreamMemory,
    /// The memory shared by all streams.
    GlobalMemory,
}

/// The status of a batch refused by a limit.
pub open spec fn limit_status_view(limit: Limit) -> StatusView {
    match limit {
        Limit::Writes => (Code::ResourceExhausted, "concurrent ingestion write limit exceeded"@),
        Limit::StreamMemory => (Code::ResourceExhausted, "per-stream ingestion memory limit exceeded"@),
        Limit::GlobalMemory => (Code::ResourceExhausted, "global ingestion memory limit exceeded"@),
    }
}

/// The status of a batch refused by a limit.
pub fn limit_status(limit: Limit) -> (status: Status)
    ensures
        status@ == limit_status_view(limit),
{
    match limit {
        Limit::Writes => Status::resource_exhausted("concurrent ingestion write limit exceeded"),
        Limit::StreamMemory => Status::resource_exhausted("per-stream ingestion memory limit exceeded"),
        Limit::GlobalMemory => Status::resource_exhausted("global ingestion memory limit exceeded"),
    }
}

/// Whether a write semaphore that reports `available_permits` free permits has
/// a free write slot.
pub fn slot_free(available_permits: usize) -> (free: bool)
    ensures
        free == (available_permits > 0),
{
    available_permits > 0
}

/// The limits of one ingestion stream.
pub struct IngestionSemaphore {
    max_in_flight_writes: usize,
    writes: Arc<Semaphore>,
    stream_memory: Arc<Semaphore>,
    global_memory: Arc<Semaphore>,
}

/// What an admitted batch holds until its write finishes: one write slot and its
/// memory permits from the stream and from the shared memory semaphore.
pub struct IngestionPermit {
    write: OwnedSemaphorePermit,
    stream_memory: OwnedSemaphorePermit,
    global_memory: OwnedSemaphorePermit,
}

impl IngestionPermit {
    /// The write slots held.
    pub closed spec fn write_permits(&self) -> nat {
        held_permits(self.write)
    }

    /// The per-stream memory permits held.
    pub closed spec fn stream_memory_permits(&self) -> nat {
        held_permits(self.stream_memory)
    }

    /// The shared memory permits held.
    pub closed spec fn global_memory_permits(&self) -> nat {
        held_permits(self.global_memory)
    }

    /// The write slot, the stream memory permits and the shared memory permits it holds.
    pub closed spec fn parts(&self) -> (OwnedSemaphorePermit, OwnedSemaphorePermit, OwnedSemaphorePermit) {
        (self.write, self.stream_memory, self.global_memory)
    }
}

/// The first limit that refuses, in the order the permits are taken: a write
/// slot, then stream memory, then shared memory; `None` when all are granted.
pub open spec fn first_refusal(write_granted: bool, stream_granted: bool, global_granted: bool) -> Option<Limit> {
    if !write_granted {
        Some(Limit::Writes)
    } else if !stream_granted {
        Some(Limit::StreamMemory)
    } else if !global_granted {
        Some(Limit::GlobalMemory)
    } else {
        None
    }
}

/// Decides on the permits a batch was granted (`None` for one that was
/// refused): with all three it is admitted holding exactly them; otherwise it is
/// refused with the status of the first limit that refused, and the permits
/// granted are given back.
pub fn admission(
    write: Option<OwnedSemaphorePermit>,
    stream_memory: Option<OwnedSemaphorePermit>,
    global_memory: Option<OwnedSemaphorePermit>,
) -> (admitted: Result<IngestionPermit, Status>)
    ensures
        match first_refusal(write is Some, stream_memory is Some, global_memory is Some) {
            Some(limit) => admitted matches Err(status) && status@ == limit_status_view(limit),
            None => admitted matches Ok(permit) && permit.parts() == (
                write->Some_0,
                stream_memory->Some_0,
                global_memory->Some_0,
            ),
        },
{
    match (write, stream_memory, global_memory) {
        (Some(write), Some(stream_memory), Some(global_memory)) => Ok(
            IngestionPermit { write, stream_memory, global_memory },
        ),
        (None, _, _) => Err(limit_status(Limit::Writes)),
        (Some(_), None, _) => Err(limit_status(Limit::StreamMemory)),
        (Some(_), Some(_), None) => Err(limit_status(Limit::GlobalMemory)),
    }
}

impl IngestionSemaphore {
    /// The most writes the stream runs at once.
    pub closed spec fn write_limit(&self) -> nat {
        self.max_in_flight_writes as nat
    }

    /// The write limit is a `usize`.
    pub proof fn lemma_write_limit_fits(&self)
        ensures
            self.write_limit() <= usize::MAX,
    {
    }

    /// The write slots its write semaphore was created with.
    pub closed spec fn write_slots(&self) -> nat {
        initial_permits(*self.writes)
    }

    /// The memory permits its own memory semaphore was created with.
    pub closed spec fn stream_memory_capacity(&self) -> nat {
        initial_permits(*self.stream_memory)
    }

    /// Its semaphore of write slots.
    pub closed spec fn write_semaphore(&self) -> Semaphore {
        *self.writes
    }

    /// Its own memory semaphore.
    pub closed spec fn stream_memory_semaphore(&self) -> Semaphore {
        *self.stream_memory
    }

    /// The memory semaphore it shares with the other streams.
    pub closed spec fn shared_memory(&self) -> Semaphore {
        *self.global_memory
    }

    /// The memory semaphore shared by all streams of a service, holding the
    /// permits of a budget of `max_global_in_flight_bytes`.
    pub fn global_memory(options: &IngestionOptions) -> (semaphore: Arc<Semaphore>)
        ensures
            initial_permits(*semaphore) == permits_for_budget(options.max_global_in_flight_bytes@),
    {
        let permits = budget_permits(options.max_global_in_flight_bytes.get());
        new_semaphore(permits as usize)
    }

    /// The limits of a new stream: `max_in_flight_writes` write slots, the
    /// permits of a budget of `max_in_flight_bytes` of its own, and the shared
    /// semaphore.
    /// A semaphore cannot hold more than `usize::MAX / 8` permits, so a larger
    /// write limit is left out.
    pub fn new(options: &IngestionOptions, global_memory: Arc<Semaphore>) -> (semaphore: Self)
        requires
            options.max_in_flight_writes@ <= usize::MAX / 8,
        ensures
            semaphore.write_limit() == options.max_in_flight_writes@,
            semaphore.write_limit() >= 1,
            semaphore.write_slots() == options.max_in_flight_writes@,
            semaphore.stream_memory_capacity() == permits_for_budget(options.max_in_flight_bytes@),
            semaphore.shared_memory() == *global_memory,
    {
        let max_in_flight_writes = options.max_in_flight_writes.get();
        let stream_permits = budget_permits(options.max_in_flight_bytes.get());
        IngestionSemaphore {
            max_in_flight_writes,
            writes: new_semaphore(max_in_flight_writes),
            stream_memory: new_semaphore(stream_permits as usize),
            global_memory,
        }
    }

    /// The most writes the stream runs at once.
    pub fn max_in_flight_writes(&self) -> (max: usize)
        ensures
            max == self.write_limit(),
    {
        self.max_in_flight_writes
    }

    /// Whether a write slot is free at the moment of the call: whether the write
    /// semaphore reports a free permit (see [`slot_free`]). Other writes of the
    /// stream finish concurrently, so the count tokio reports is not known in
    /// advance, and the answer may be stale by the time it is used;
    /// [`IngestionSemaphore::try_acquire`] checks again.
    pub fn has_write_capacity(&self) -> bool {
        slot_free(available_permits(&self.writes))
    }

    /// Admits a batch of `batch_bytes` estimated bytes, without waiting: takes a
    /// write slot, then its memory permits from the stream, then from the shared
    /// semaphore, and hands what it got to [`admission`]. It stops at the first
    /// refusal, so a later semaphore is not asked once an earlier one refused.
    /// Which semaphore refuses depends on the permits other tasks hold at that
    /// moment; what is fixed is what is asked of which semaphore.
    pub fn try_acquire(&self, batch_bytes: u64) -> (admitted: Result<IngestionPermit, Status>)
        ensures
            admitted matches Ok(permit) ==> {
                &&& permit.write_permits() == 1
                &&& permit.stream_memory_permits() == permits_for_bytes(batch_bytes)
                &&& permit.global_memory_permits() == permits_for_bytes(batch_bytes)
                &&& permit_source(permit.parts().0) == self.write_semaphore()
                &&& permit_source(permit.parts().1) == self.stream_memory_semaphore()
                &&& permit_source(permit.parts().2) == self.shared_memory()
            },
            admitted matches Err(status) ==> exists|limit: Limit| status@ == limit_status_view(limit),
    {
        let write = match try_acquire_one(&self.writes) {
            Ok(permit) => Some(permit),
            Err(_) => None,
        };
        if write.is_none() {
            return admission(write, None, None);
        }
        let permits = memory_permits(batch_bytes);
        let stream_memory = match try_acquire_many(&self.stream_memory, permits) {
            Ok(permit) => Some(permit),
            Err(_) => None,
        };
        if stream_memory.is_none() {
            return admission(write, stream_memory, None);
        }
        let global_memory = match try_acquire_many(&self.global_memory, permits) {
            Ok(permit) => Some(permit),
            Err(_) => None,
        };
        admission(write, stream_memory, global_memory)
    }
}

} // verus!
