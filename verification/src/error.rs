//! One error type for every fallible boundary, and the total conversions into it.

use vstd::prelude::*;
use vstd::std_specs::convert::FromSpecImpl;

verus! {

/// The worker pool refused a blocking operation.
#[derive(Debug, Clone, Copy, PartialEq, Eq, Structural)]
pub struct PoolRejection;

/// The completion channel was dropped before a result was sent through it.
#[derive(Debug, Clone, Copy, PartialEq, Eq, Structural)]
pub struct ChannelDropped;

/// Why stored bytes could not be read as the type that was asked for.
#[derive(Debug, Clone, Copy, PartialEq, Eq, Structural)]
pub enum DecodeFault {
    /// The bytes are not UTF-8; `valid_up_to` is the length of the longest
    /// prefix that is.
    InvalidUtf8 { valid_up_to: usize },
    /// A stored integer must be exactly eight bytes long; `len` is the length
    /// that was found.
    BadLength { len: usize },
}

/// What the storage engine reported, as plain values.
#[derive(Debug)]
pub enum StorageFault<E> {
    /// An atomic operation failed; the value that was found is carried along.
    CasFailed(E),
    /// The engine was used in a way that it does not support.
    Unsupported(String),
    /// The engine hit a bug of its own.
    ReportableBug(String),
    /// A read or write on the file system failed; the operating system's
    /// message is carried along.
    Io(String),
    /// Corruption was detected in the storage file; `at` is the place, as the
    /// engine prints it.
    Corruption { at: String },
}

/// Every failure that a caller of this crate can see.
#[derive(Debug)]
pub enum AngryError<E> {
    /// The worker pool could not accept or execute the task.
    WorkerRejected,
    /// The storage engine reported an error.
    StorageFailure(StorageFault<E>),
    /// Stored bytes violate the codec that was asked for.
    DecodeFailure(DecodeFault),
    /// A failure that the caller defined.
    CallerFailure(E),
    /// The completion channel was dropped before it resolved.
    Cancelled,
    /// A failure that fits no other case.
    Other(String),
}

impl<E> From<PoolRejection> for AngryError<E> {
    fn from(err: PoolRejection) -> (ret: AngryError<E>) {
        AngryError::WorkerRejected
    }
}

impl<E> FromSpecImpl<PoolRejection> for AngryError<E> {
    open spec fn obeys_from_spec() -> bool {
        true
    }

    open spec fn from_spec(err: PoolRejection) -> AngryError<E> {
        AngryError::WorkerRejected
    }
}

impl<E> From<StorageFault<E>> for AngryError<E> {
    fn from(err: StorageFault<E>) -> (ret: AngryError<E>) {
        AngryError::StorageFailure(err)
    }
}

impl<E> FromSpecImpl<StorageFault<E>> for AngryError<E> {
    open spec fn obeys_from_spec() -> bool {
        true
    }

    open spec fn from_spec(err: StorageFault<E>) -> AngryError<E> {
        AngryError::StorageFailure(err)
    }
}

impl<E> From<ChannelDropped> for AngryError<E> {
    fn from(err: ChannelDropped) -> (ret: AngryError<E>) {
        AngryError::Cancelled
    }
}

impl<E> FromSpecImpl<ChannelDropped> for AngryError<E> {
    open spec fn obeys_from_spec() -> bool {
        true
    }

    open spec fn from_spec(err: ChannelDropped) -> AngryError<E> {
        AngryError::Cancelled
    }
}

impl<E> From<DecodeFault> for AngryError<E> {
    fn from(err: DecodeFault) -> (ret: AngryError<E>) {
        AngryError::DecodeFailure(err)
    }
}

impl<E> FromSpecImpl<DecodeFault> for AngryError<E> {
    open spec fn obeys_from_spec() -> bool {
        true
    }

    open spec fn from_spec(err: DecodeFault) -> AngryError<E> {
        AngryError::DecodeFailure(err)
    }
}

} // verus!
