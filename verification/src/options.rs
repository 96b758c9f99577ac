//! Configuration of the ingestion service.

use vstd::prelude::*;

verus! {

/// The default number of concurrent writes of one stream.
pub const DEFAULT_MAX_IN_FLIGHT_WRITES: usize = 32;
/// The default memory, in bytes, that the batches of one stream may take.
pub const DEFAULT_MAX_IN_FLIGHT_BYTES: u64 = 256 * 1024 * 1024;
/// The default memory, in bytes, that the batches of all streams may take.
pub const DEFAULT_MAX_GLOBAL_IN_FLIGHT_BYTES: u64 = 512 * 1024 * 1024 * 1024;

/// A `usize` that is never zero.
#[derive(Clone, Copy, Debug, PartialEq, Eq)]
pub struct NonZeroUsize {
    value: usize,
}

impl View for NonZeroUsize {
    type V = nat;

    closed spec fn view(&self) -> nat {
        self.value as nat
    }
}

impl NonZeroUsize {
    #[verifier::type_invariant]
    closed spec fn positive(self) -> bool {
        self.value != 0
    }

    /// `Some` of `value` when it is not zero, and `None` when it is.
    pub fn new(value: usize) -> (result: Option<NonZeroUsize>)
        ensures
            value == 0 <==> result is None,
            result matches Some(n) ==> n@ == value,
    {
        if value == 0 {
            None
        } else {
            Some(NonZeroUsize { value })
        }
    }

    /// The value, which is not zero.
    pub fn get(self) -> (value: usize)
        ensures
            value == self@,
            value != 0,
    {
        proof {
            use_type_invariant(&self);
        }
        self.value
    }
}

/// A `u64` that is never zero.
#[derive(Clone, Copy, Debug, PartialEq, Eq)]
pub struct NonZeroU64 {
    value: u64,
}

impl View for NonZeroU64 {
    type V = u64;

    closed spec fn view(&self) -> u64 {
        self.value
    }
}

impl NonZeroU64 {
    #[verifier::type_invariant]
    closed spec fn positive(self) -> bool {
        self.value != 0
    }

    /// `Some` of `value` when it is not zero, and `None` when it is.
    pub fn new(value: u64) -> (result: Option<NonZeroU64>)
        ensures
            value == 0 <==> result is None,
            result matches Some(n) ==> n@ == value,
    {
        if value == 0 {
            None
        } else {
            Some(NonZeroU64 { value })
        }
    }

    /// The value, which is not zero.
    pub fn get(self) -> (value: u64)
        ensures
            value == self@,
            value != 0,
    {
        proof {
            use_type_invariant(&self);
        }
        self.value
    }
}

/// Configuration for the ingestion service.
#[derive(Clone, Debug)]
pub struct IngestionOptions {
    /// Maximum number of record batch writes running concurrently for one stream.
    pub max_in_flight_writes: NonZeroUsize,
    /// Maximum estimated memory used by record batches being written for one stream.
    pub max_in_flight_bytes: NonZeroU64,
    /// Maximum estimated memory used by record batches being written across all streams.
    pub max_global_in_flight_bytes: NonZeroU64,
}

impl Default for IngestionOptions {
    /// 32 concurrent writes and 256 MiB per stream, 512 GiB across all streams.
    fn default() -> (options: Self)
        ensures
            options.max_in_flight_writes@ == DEFAULT_MAX_IN_FLIGHT_WRITES,
            options.max_in_flight_bytes@ == DEFAULT_MAX_IN_FLIGHT_BYTES,
            options.max_global_in_flight_bytes@ == DEFAULT_MAX_GLOBAL_IN_FLIGHT_BYTES,
    {
        IngestionOptions {
            max_in_flight_writes: NonZeroUsize::new(DEFAULT_MAX_IN_FLIGHT_WRITES).unwrap(),
            max_in_flight_bytes: NonZeroU64::new(DEFAULT_MAX_IN_FLIGHT_BYTES).unwrap(),
            max_global_in_flight_bytes: NonZeroU64::new(DEFAULT_MAX_GLOBAL_IN_FLIGHT_BYTES).unwrap(),
        }
    }
}

} // verus!
