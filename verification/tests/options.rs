use se_ingestion_server::{IngestionOptions, NonZeroU64, NonZeroUsize};

#[test]
fn ingestion_options_defaults() {
    let options = IngestionOptions::default();

    assert_eq!(options.max_in_flight_writes.get(), 32);
    assert_eq!(options.max_in_flight_bytes.get(), 256 * 1024 * 1024);
    assert_eq!(
        options.max_global_in_flight_bytes.get(),
        512 * 1024 * 1024 * 1024
    );
}

#[test]
fn non_zero_values_refuse_zero() {
    assert!(NonZeroUsize::new(0).is_none());
    assert!(NonZeroU64::new(0).is_none());
    assert_eq!(NonZeroUsize::new(7).unwrap().get(), 7);
    assert_eq!(NonZeroU64::new(u64::MAX).unwrap().get(), u64::MAX);
}
