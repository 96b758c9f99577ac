use std::sync::Arc;

use se_ingestion_server::permit::{admission, memory_permits};
use se_ingestion_server::{budget_permits, limit_status, Code, IngestionOptions, Limit, IngestionSemaphore, NonZeroU64, NonZeroUsize};

fn options(writes: usize, stream_bytes: u64, global_bytes: u64) -> IngestionOptions {
    IngestionOptions {
        max_in_flight_writes: NonZeroUsize::new(writes).unwrap(),
        max_in_flight_bytes: NonZeroU64::new(stream_bytes).unwrap(),
        max_global_in_flight_bytes: NonZeroU64::new(global_bytes).unwrap(),
    }
}

#[test]
fn memory_permits_round_up_to_kibibytes() {
    assert_eq!(memory_permits(0), 0);
    assert_eq!(memory_permits(1), 1);
    assert_eq!(memory_permits(1024), 1);
    assert_eq!(memory_permits(1025), 2);
    assert_eq!(memory_permits(256 * 1024 * 1024), 256 * 1024);
}

#[test]
fn memory_permits_are_capped() {
    let ceiling = (usize::MAX >> 3).min(u32::MAX as usize) as u32;
    assert_eq!(memory_permits(u64::MAX), ceiling);
}

#[test]
fn memory_permits_are_monotone_on_samples() {
    let samples = [0u64, 1, 1023, 1024, 1025, 4096, 1 << 40, u64::MAX];
    for pair in samples.windows(2) {
        assert!(memory_permits(pair[0]) <= memory_permits(pair[1]));
    }
}

#[test]
fn global_memory_holds_the_permits_of_its_limit() {
    let options = IngestionOptions::default();
    let global = IngestionSemaphore::global_memory(&options);
    assert_eq!(global.available_permits(), 512 * 1024 * 1024);
}

#[test]
fn new_semaphore_takes_the_stream_limits() {
    let options = options(3, 10 * 1024, 1 << 20);
    let global = IngestionSemaphore::global_memory(&options);
    let semaphore = IngestionSemaphore::new(&options, Arc::clone(&global));
    assert_eq!(semaphore.max_in_flight_writes(), 3);
    assert!(semaphore.has_write_capacity());
}

#[test]
fn try_acquire_takes_and_returns_permits() {
    let options = options(1, 2048, 1 << 20);
    let global = IngestionSemaphore::global_memory(&options);
    let semaphore = IngestionSemaphore::new(&options, Arc::clone(&global));

    let permit = semaphore.try_acquire(1500).ok().unwrap();
    assert!(!semaphore.has_write_capacity());
    assert_eq!(global.available_permits(), 1024 - 2);

    let second = semaphore.try_acquire(1).err().unwrap();
    assert_eq!(second.code, Code::ResourceExhausted);
    assert_eq!(second.message, "concurrent ingestion write limit exceeded");

    drop(permit);
    assert!(semaphore.has_write_capacity());
    assert_eq!(global.available_permits(), 1024);
    assert!(semaphore.try_acquire(2048).is_ok());
}

#[test]
fn try_acquire_rejects_a_batch_over_the_stream_memory() {
    let options = options(4, 2048, 1 << 20);
    let global = IngestionSemaphore::global_memory(&options);
    let semaphore = IngestionSemaphore::new(&options, Arc::clone(&global));

    let status = semaphore.try_acquire(2049).err().unwrap();
    assert_eq!(status.code, Code::ResourceExhausted);
    assert_eq!(status.message, "per-stream ingestion memory limit exceeded");
    // the write slot taken first was given back
    assert!(semaphore.has_write_capacity());
    assert_eq!(global.available_permits(), 1024);
}

#[test]
fn try_acquire_rejects_a_batch_over_the_global_memory() {
    let options = options(4, 1 << 20, 4096);
    let global = IngestionSemaphore::global_memory(&options);
    let first = IngestionSemaphore::new(&options, Arc::clone(&global));
    let second = IngestionSemaphore::new(&options, Arc::clone(&global));

    let held = first.try_acquire(3 * 1024).ok().unwrap();
    let status = second.try_acquire(2 * 1024).err().unwrap();
    assert_eq!(status.code, Code::ResourceExhausted);
    assert_eq!(status.message, "global ingestion memory limit exceeded");

    drop(held);
    assert!(second.try_acquire(2 * 1024).is_ok());
}

#[test]
fn each_limit_has_its_status() {
    assert_eq!(limit_status(Limit::Writes).message, "concurrent ingestion write limit exceeded");
    assert_eq!(limit_status(Limit::StreamMemory).message, "per-stream ingestion memory limit exceeded");
    assert_eq!(limit_status(Limit::GlobalMemory).message, "global ingestion memory limit exceeded");
    assert_eq!(limit_status(Limit::GlobalMemory).code, Code::ResourceExhausted);
}

#[test]
fn memory_permits_cover_their_bytes() {
    for bytes in [1u64, 1023, 1024, 1025, 65_537, 1 << 30] {
        let permits = memory_permits(bytes) as u64;
        assert!(permits * 1024 >= bytes);
        assert!((permits - 1) * 1024 < bytes);
    }
}

#[test]
fn a_slot_is_free_when_a_permit_is() {
    assert!(se_ingestion_server::permit::slot_free(1));
    assert!(!se_ingestion_server::permit::slot_free(0));
}

#[test]
fn admission_reports_the_first_refusal() {
    let pool = Arc::new(tokio::sync::Semaphore::new(8));
    let permit = || Some(Arc::clone(&pool).try_acquire_owned().unwrap());

    assert_eq!(admission(None, permit(), permit()).err().unwrap().message, "concurrent ingestion write limit exceeded");
    assert_eq!(admission(permit(), None, None).err().unwrap().message, "per-stream ingestion memory limit exceeded");
    assert_eq!(admission(permit(), permit(), None).err().unwrap().message, "global ingestion memory limit exceeded");
    // refused admissions give back what they were granted
    assert_eq!(pool.available_permits(), 8);

    let admitted = admission(permit(), permit(), permit());
    assert!(admitted.is_ok());
    assert_eq!(pool.available_permits(), 5);
    drop(admitted);
    assert_eq!(pool.available_permits(), 8);
}

#[test]
fn a_fresh_stream_refuses_a_batch_over_its_own_budget() {
    let options = options(1, 1024, 1024);
    let semaphore = IngestionSemaphore::new(&options, IngestionSemaphore::global_memory(&options));
    let status = semaphore.try_acquire(1025).err().unwrap();
    assert_eq!(status.code, Code::ResourceExhausted);
    assert_eq!(status.message, "per-stream ingestion memory limit exceeded");
    assert!(semaphore.has_write_capacity());
}

#[test]
fn streams_have_their_own_budgets_and_share_the_global_one() {
    let options = options(4, 1024, 1024);
    let global = IngestionSemaphore::global_memory(&options);
    let first = IngestionSemaphore::new(&options, Arc::clone(&global));
    let second = IngestionSemaphore::new(&options, Arc::clone(&global));

    let held = first.try_acquire(1).ok().unwrap();
    let status = second.try_acquire(1).err().unwrap();
    assert_eq!(status.message, "global ingestion memory limit exceeded");
    drop(held);
    assert!(second.try_acquire(1).is_ok());
}

#[test]
fn batches_within_a_budget_stay_within_its_bytes() {
    let capacity = memory_permits(10 * 1024) as u64;
    let sizes = [1u64, 1023, 2048, 3000, 1500];
    let permits: u64 = sizes.iter().map(|size| memory_permits(*size) as u64).sum();
    assert!(permits <= capacity);
    assert!(sizes.iter().sum::<u64>() <= capacity * 1024);
}

#[test]
fn a_budget_holds_one_permit_per_whole_kibibyte() {
    assert_eq!(budget_permits(0), 0);
    assert_eq!(budget_permits(1000), 0);
    assert_eq!(budget_permits(1024), 1);
    assert_eq!(budget_permits(2047), 1);
    assert_eq!(budget_permits(256 * 1024 * 1024), 256 * 1024);
}

#[test]
fn a_stream_never_takes_more_memory_than_its_byte_limit() {
    let limited = options(4, 2047, 1 << 20);
    let semaphore = IngestionSemaphore::new(&limited, IngestionSemaphore::global_memory(&limited));
    let status = semaphore.try_acquire(2048).err().unwrap();
    assert_eq!(status.message, "per-stream ingestion memory limit exceeded");
    let held = semaphore.try_acquire(1024).ok().unwrap();
    let status = semaphore.try_acquire(1).err().unwrap();
    assert_eq!(status.message, "per-stream ingestion memory limit exceeded");
    drop(held);

    let small = options(1, 1000, 1 << 20);
    let semaphore = IngestionSemaphore::new(&small, IngestionSemaphore::global_memory(&small));
    assert!(semaphore.try_acquire(1024).is_err());
}
