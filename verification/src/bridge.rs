//! The decisions of the execution bridge. A blocking operation runs on a worker
//! pool and its result comes back through a one-shot completion channel, so a
//! caller receives two failure channels nested in each other. The functions
//! here fold them into one `AngryError`, and lose no cause on the way.
//! `PoolPlaces` keeps the pool bounded: it counts the tasks in flight and
//! rejects the one that would exceed the capacity.

use crate::error::{AngryError, ChannelDropped, PoolRejection, StorageFault};
use vstd::prelude::*;

verus! {

/// The bridge's count of the tasks that it has handed to the pool, as
/// mathematics.
pub struct PlaceCount {
    /// The most tasks that may be in flight at once.
    pub capacity: nat,
    /// The tasks that hold a place.
    pub in_flight: nat,
}

/// The places in the worker pool. At most `capacity` tasks hold a place at a
/// time; every further one is turned away until a place is free again, so
/// that no queue grows without bound.
#[derive(Debug)]
pub struct PoolPlaces {
    capacity: usize,
    in_flight: usize,
}

impl View for PoolPlaces {
    type V = PlaceCount;

    closed spec fn view(&self) -> PlaceCount {
        PlaceCount { capacity: self.capacity as nat, in_flight: self.in_flight as nat }
    }
}

impl PoolPlaces {
    #[verifier::type_invariant]
    spec fn within_capacity(self) -> bool {
        self.in_flight <= self.capacity
    }

    /// A pool of `capacity` places, all of them free.
    pub fn new(capacity: usize) -> (places: PoolPlaces)
        ensures
            places@ == (PlaceCount { capacity: capacity as nat, in_flight: 0 }),
    {
        PoolPlaces { capacity, in_flight: 0 }
    }

    /// Asks for a place for one more task. While a place is free the task gets
    /// it and is counted; at capacity the task is rejected and nothing
    /// changes.
    pub fn try_claim(&mut self) -> (claimed: Result<(), PoolRejection>)
        ensures
            old(self)@.in_flight <= old(self)@.capacity,
            old(self)@.in_flight < old(self)@.capacity ==> claimed is Ok && final(self)@ == (
            PlaceCount { in_flight: old(self)@.in_flight + 1, ..old(self)@ }),
            old(self)@.in_flight == old(self)@.capacity ==> claimed == Err::<(), PoolRejection>(
                PoolRejection,
            ) && final(self)@ == old(self)@,
    {
        proof {
            use_type_invariant(&*self);
        }
        if self.in_flight < self.capacity {
            self.in_flight = self.in_flight + 1;
            Ok(())
        } else {
            Err(PoolRejection)
        }
    }

    /// Gives the place of one task back, whether the task delivered a result
    /// or not. With nothing in flight there is nothing to give back.
    pub fn release(&mut self)
        ensures
            final(self)@ == (PlaceCount {
                in_flight: if old(self)@.in_flight > 0 {
                    (old(self)@.in_flight - 1) as nat
                } else {
                    0
                },
                ..old(self)@
            }),
    {
        proof {
            use_type_invariant(&*self);
        }
        if self.in_flight > 0 {
            self.in_flight = self.in_flight - 1;
        }
    }

    /// The most tasks that may be in flight at once.
    pub fn capacity(&self) -> (capacity: usize)
        ensures
            capacity == self@.capacity,
    {
        self.capacity
    }

    /// The tasks in flight, never more than the capacity.
    pub fn in_flight(&self) -> (in_flight: usize)
        ensures
            in_flight == self@.in_flight,
            self@.in_flight <= self@.capacity,
    {
        proof {
            use_type_invariant(self);
        }
        self.in_flight
    }
}

/// What a blocking storage operation yields once both channels are folded: a
/// rejection by the pool comes first, then the engine's own fault, then the
/// value.
pub open spec fn flattened_blocking<I, E>(
    outcome: Result<Result<I, StorageFault<E>>, PoolRejection>,
) -> Result<I, AngryError<E>> {
    match outcome {
        Err(_) => Err(AngryError::WorkerRejected),
        Ok(Err(fault)) => Err(AngryError::StorageFailure(fault)),
        Ok(Ok(value)) => Ok(value),
    }
}

/// Folds the outcome of a blocking storage operation: the outer channel is the
/// worker pool's, the inner one the storage engine's.
pub fn flatten_blocking<I, E>(outcome: Result<Result<I, StorageFault<E>>, PoolRejection>) -> (folded:
    Result<I, AngryError<E>>)
    ensures
        folded == flattened_blocking(outcome),
{
    match outcome {
        Err(rejection) => Err(AngryError::from(rejection)),
        Ok(inner) => match inner {
            Err(fault) => Err(AngryError::from(fault)),
            Ok(value) => Ok(value),
        },
    }
}

/// What the caller of the bridge sees: `Cancelled` when the channel was dropped
/// without a value, else exactly what the task produced.
pub open spec fn flattened_completion<I, E>(
    received: Result<Result<I, AngryError<E>>, ChannelDropped>,
) -> Result<I, AngryError<E>> {
    match received {
        Err(_) => Err(AngryError::Cancelled),
        Ok(produced) => produced,
    }
}

/// Folds what the completion channel handed back. A task that never delivered,
/// because the worker died or the pool shut down, resolves to `Cancelled`; a
/// task that delivered resolves to its own result, unchanged.
pub fn flatten_completion<I, E>(received: Result<Result<I, AngryError<E>>, ChannelDropped>) -> (folded:
    Result<I, AngryError<E>>)
    ensures
        folded == flattened_completion(received),
        received is Err ==> folded == Err::<I, AngryError<E>>(AngryError::Cancelled),
{
    match received {
        Err(dropped) => Err(AngryError::from(dropped)),
        Ok(produced) => match produced {
            Err(err) => Err(err),
            Ok(value) => Ok(value),
        },
    }
}

} // verus!
