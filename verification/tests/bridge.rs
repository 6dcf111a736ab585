use imangry::bridge::{flatten_blocking, flatten_completion};
use imangry::error::{AngryError, ChannelDropped, DecodeFault, PoolRejection, StorageFault};

#[test]
fn flatten_blocking_passes_the_value_through() {
    let outcome: Result<Result<Option<Vec<u8>>, StorageFault<()>>, PoolRejection> =
        Ok(Ok(Some(vec![1, 2, 3])));
    assert!(matches!(flatten_blocking(outcome), Ok(Some(v)) if v == vec![1, 2, 3]));
    let unit: Result<Result<(), StorageFault<()>>, PoolRejection> = Ok(Ok(()));
    assert!(matches!(flatten_blocking(unit), Ok(())));
}

#[test]
fn flatten_blocking_maps_a_rejection_to_worker_rejected() {
    let outcome: Result<Result<u64, StorageFault<()>>, PoolRejection> = Err(PoolRejection);
    assert!(matches!(
        flatten_blocking(outcome),
        Err(AngryError::WorkerRejected)
    ));
}

#[test]
fn flatten_blocking_keeps_the_storage_fault() {
    let io: Result<Result<u64, StorageFault<()>>, PoolRejection> =
        Ok(Err(StorageFault::Io("disk full".to_string())));
    assert!(matches!(
        flatten_blocking(io),
        Err(AngryError::StorageFailure(StorageFault::Io(m))) if m == "disk full"
    ));
    let corrupt: Result<Result<u64, StorageFault<()>>, PoolRejection> =
        Ok(Err(StorageFault::Corruption { at: "Inline(77)".to_string() }));
    assert!(matches!(
        flatten_blocking(corrupt),
        Err(AngryError::StorageFailure(StorageFault::Corruption { at })) if at == "Inline(77)"
    ));
    let unsupported: Result<Result<u64, StorageFault<()>>, PoolRejection> =
        Ok(Err(StorageFault::Unsupported("read-only".to_string())));
    assert!(matches!(
        flatten_blocking(unsupported),
        Err(AngryError::StorageFailure(StorageFault::Unsupported(m))) if m == "read-only"
    ));
    let bug: Result<Result<u64, StorageFault<()>>, PoolRejection> =
        Ok(Err(StorageFault::ReportableBug("oops".to_string())));
    assert!(matches!(
        flatten_blocking(bug),
        Err(AngryError::StorageFailure(StorageFault::ReportableBug(m))) if m == "oops"
    ));
    let cas: Result<Result<u64, StorageFault<u8>>, PoolRejection> =
        Ok(Err(StorageFault::CasFailed(9)));
    assert!(matches!(
        flatten_blocking(cas),
        Err(AngryError::StorageFailure(StorageFault::CasFailed(9)))
    ));
}

#[test]
fn dropped_channel_resolves_to_cancelled() {
    let received: Result<Result<u64, AngryError<()>>, ChannelDropped> = Err(ChannelDropped);
    assert!(matches!(
        flatten_completion(received),
        Err(AngryError::Cancelled)
    ));
}

#[test]
fn flatten_completion_hands_the_task_result_on() {
    let ok: Result<Result<u64, AngryError<()>>, ChannelDropped> = Ok(Ok(43));
    assert!(matches!(flatten_completion(ok), Ok(43)));
    let rejected: Result<Result<u64, AngryError<()>>, ChannelDropped> =
        Ok(Err(AngryError::WorkerRejected));
    assert!(matches!(
        flatten_completion(rejected),
        Err(AngryError::WorkerRejected)
    ));
    let caller: Result<Result<u64, AngryError<&str>>, ChannelDropped> =
        Ok(Err(AngryError::CallerFailure("key already present")));
    assert!(matches!(
        flatten_completion(caller),
        Err(AngryError::CallerFailure("key already present"))
    ));
    let other: Result<Result<u64, AngryError<()>>, ChannelDropped> =
        Ok(Err(AngryError::Other("WTF".to_string())));
    assert!(matches!(
        flatten_completion(other),
        Err(AngryError::Other(m)) if m == "WTF"
    ));
    let decode: Result<Result<u64, AngryError<()>>, ChannelDropped> = Ok(Err(
        AngryError::DecodeFailure(DecodeFault::BadLength { len: 2 }),
    ));
    assert!(matches!(
        flatten_completion(decode),
        Err(AngryError::DecodeFailure(DecodeFault::BadLength { len: 2 }))
    ));
}

#[test]
fn every_cause_converts_into_its_own_case() {
    let rejected: AngryError<()> = AngryError::from(PoolRejection);
    assert!(matches!(rejected, AngryError::WorkerRejected));
    let cancelled: AngryError<()> = ChannelDropped.into();
    assert!(matches!(cancelled, AngryError::Cancelled));
    let decode: AngryError<()> = DecodeFault::InvalidUtf8 { valid_up_to: 4 }.into();
    assert!(matches!(
        decode,
        AngryError::DecodeFailure(DecodeFault::InvalidUtf8 { valid_up_to: 4 })
    ));
    let storage: AngryError<u8> = StorageFault::CasFailed(3u8).into();
    assert!(matches!(
        storage,
        AngryError::StorageFailure(StorageFault::CasFailed(3))
    ));
}

#[test]
fn places_are_claimed_up_to_the_capacity() {
    let mut places = imangry::bridge::PoolPlaces::new(2);
    assert_eq!(places.capacity(), 2);
    assert_eq!(places.in_flight(), 0);
    assert_eq!(places.try_claim(), Ok(()));
    assert_eq!(places.try_claim(), Ok(()));
    assert_eq!(places.in_flight(), 2);
}

#[test]
fn saturated_pool_rejects_and_changes_nothing() {
    let mut places = imangry::bridge::PoolPlaces::new(2);
    places.try_claim().unwrap();
    places.try_claim().unwrap();
    assert_eq!(places.try_claim(), Err(PoolRejection));
    assert_eq!(places.try_claim(), Err(PoolRejection));
    assert_eq!(places.in_flight(), 2);
    assert_eq!(places.capacity(), 2);
    // The rejection reaches the caller as `WorkerRejected`.
    let rejected: AngryError<()> = places.try_claim().unwrap_err().into();
    assert!(matches!(rejected, AngryError::WorkerRejected));
}

#[test]
fn released_place_can_be_claimed_again() {
    let mut places = imangry::bridge::PoolPlaces::new(1);
    assert_eq!(places.try_claim(), Ok(()));
    assert_eq!(places.try_claim(), Err(PoolRejection));
    places.release();
    assert_eq!(places.in_flight(), 0);
    assert_eq!(places.try_claim(), Ok(()));
}

#[test]
fn release_with_nothing_in_flight_changes_nothing() {
    let mut places = imangry::bridge::PoolPlaces::new(3);
    places.release();
    assert_eq!(places.in_flight(), 0);
    assert_eq!(places.capacity(), 3);
}

#[test]
fn pool_without_places_rejects_everything() {
    let mut places = imangry::bridge::PoolPlaces::new(0);
    assert_eq!(places.try_claim(), Err(PoolRejection));
    assert_eq!(places.in_flight(), 0);
}
