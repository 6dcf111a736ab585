//! The durability throttle. Every successful write sends a `DbSyncCommand`;
//! the actor decides from the time elapsed since the last flush whether the
//! store is flushed now. It never flushes itself: it answers with a
//! `SyncAction`, and whoever owns the store reports back with `flushed`.
//!
//! Times are milliseconds on a monotonic clock, counted from any fixed origin.

use crate::error::StorageFault;
use vstd::prelude::*;

verus! {

/// The default minimum time between two flushes, in milliseconds.
pub const MIN_SYNC_INTERVAL: u64 = 2000;

/// The message "a write happened".
#[derive(Debug, Clone, Copy, PartialEq, Eq, Structural)]
pub struct DbSyncCommand;

/// What the owner of the store does after a `DbSyncCommand`.
#[derive(Debug, Clone, Copy, PartialEq, Eq, Structural)]
pub enum SyncAction {
    /// Flush the store now, then call `flushed`.
    Flush,
    /// Do nothing: the last flush is recent enough, or one is in flight.
    Skip,
}

/// The throttle's state as mathematics.
pub struct FlushState {
    /// The minimum time between the end of one flush and the start of the next.
    pub min_interval: nat,
    /// When the last flush ended, or when the actor was made.
    pub last_sync: nat,
    /// Whether a flush was started and has not ended yet.
    pub flushing: bool,
}

impl FlushState {
    /// The time that has passed since the last flush, zero if the clock reads
    /// earlier than that.
    pub open spec fn elapsed(self, now: nat) -> nat {
        if now >= self.last_sync {
            (now - self.last_sync) as nat
        } else {
            0
        }
    }

    /// Whether a command that arrives at `now` starts a flush.
    pub open spec fn due(self, now: nat) -> bool {
        !self.flushing && self.elapsed(now) >= self.min_interval
    }

    /// The state after a command that arrived at `now`.
    pub open spec fn on_command(self, now: nat) -> FlushState {
        if self.due(now) {
            FlushState { flushing: true, ..self }
        } else {
            self
        }
    }

    /// The action that answers a command that arrived at `now`.
    pub open spec fn action(self, now: nat) -> SyncAction {
        if self.due(now) {
            SyncAction::Flush
        } else {
            SyncAction::Skip
        }
    }

    /// The state after a flush that ended at `now`, whether it succeeded or not.
    pub open spec fn on_flushed(self, now: nat) -> FlushState {
        FlushState { last_sync: now, flushing: false, ..self }
    }
}

/// The single owner of the flush timestamp.
#[derive(Debug)]
pub struct DbSyncActor {
    min_interval: u64,
    last_sync: u64,
    flushing: bool,
}

impl View for DbSyncActor {
    type V = FlushState;

    closed spec fn view(&self) -> FlushState {
        FlushState {
            min_interval: self.min_interval as nat,
            last_sync: self.last_sync as nat,
            flushing: self.flushing,
        }
    }
}

impl DbSyncActor {
    /// An idle actor made at `now`, with the default interval.
    pub fn new(now: u64) -> (actor: DbSyncActor)
        ensures
            actor@ == (FlushState {
                min_interval: MIN_SYNC_INTERVAL as nat,
                last_sync: now as nat,
                flushing: false,
            }),
    {
        DbSyncActor { min_interval: MIN_SYNC_INTERVAL, last_sync: now, flushing: false }
    }

    /// An idle actor made at `now`, with an interval of `min_interval`
    /// milliseconds.
    pub fn with_interval(now: u64, min_interval: u64) -> (actor: DbSyncActor)
        ensures
            actor@ == (FlushState {
                min_interval: min_interval as nat,
                last_sync: now as nat,
                flushing: false,
            }),
    {
        DbSyncActor { min_interval, last_sync: now, flushing: false }
    }

    /// Handles one notification that arrived at `now`. The answer is `Flush`
    /// exactly when no flush is in flight and at least the minimum interval
    /// has passed since the last one ended; the actor then counts a flush as
    /// in flight until `flushed` is called.
    pub fn handle(&mut self, msg: DbSyncCommand, now: u64) -> (action: SyncAction)
        ensures
            final(self)@ == old(self)@.on_command(now as nat),
            action == old(self)@.action(now as nat),
    {
        let elapsed: u64 = if now >= self.last_sync {
            now - self.last_sync
        } else {
            0
        };
        if !self.flushing && elapsed >= self.min_interval {
            self.flushing = true;
            SyncAction::Flush
        } else {
            SyncAction::Skip
        }
    }

    /// Records that a flush ended at `now`. A failed flush moves the timestamp
    /// as a successful one does. The fault, if there was one, is handed back to
    /// be logged; it goes to no writer.
    pub fn flushed(&mut self, now: u64, outcome: Result<(), StorageFault<()>>) -> (observed: Option<
        StorageFault<()>,
    >)
        ensures
            final(self)@ == old(self)@.on_flushed(now as nat),
            observed == match outcome {
                Ok(_) => None,
                Err(fault) => Some(fault),
            },
    {
        self.last_sync = now;
        self.flushing = false;
        match outcome {
            Ok(_) => None,
            Err(fault) => Some(fault),
        }
    }

    /// Whether a flush is in flight.
    pub fn is_flushing(&self) -> (flushing: bool)
        ensures
            flushing == self@.flushing,
    {
        self.flushing
    }

    /// When the last flush ended.
    pub fn last_sync(&self) -> (at: u64)
        ensures
            at == self@.last_sync,
    {
        self.last_sync
    }
}

/// One thing that happens to the actor.
pub enum SyncEvent {
    /// A notification arrived.
    Command { now: nat },
    /// A flush ended.
    Flushed { now: nat },
}

impl SyncEvent {
    /// When the event happened.
    pub open spec fn time(self) -> nat {
        match self {
            SyncEvent::Command { now } => now,
            SyncEvent::Flushed { now } => now,
        }
    }
}

/// The state after one event.
pub open spec fn step(state: FlushState, event: SyncEvent) -> FlushState {
    match event {
        SyncEvent::Command { now } => state.on_command(now),
        SyncEvent::Flushed { now } => state.on_flushed(now),
    }
}

/// Whether the event starts a flush.
pub open spec fn starts_flush(state: FlushState, event: SyncEvent) -> bool {
    event matches SyncEvent::Command { now } && state.due(now)
}

/// The times at which flushes start when `events` happen in order to an actor
/// in `state`.
pub open spec fn flush_times(state: FlushState, events: Seq<SyncEvent>) -> Seq<nat>
    decreases events.len(),
{
    if events.len() == 0 {
        Seq::empty()
    } else {
        let rest = flush_times(step(state, events[0]), events.drop_first());
        if starts_flush(state, events[0]) {
            seq![events[0].time()] + rest
        } else {
            rest
        }
    }
}

/// The clock never runs backwards over `events`.
pub open spec fn monotonic(events: Seq<SyncEvent>) -> bool {
    forall|i: int, j: int|
        0 <= i <= j < events.len() ==> (#[trigger] events[i]).time() <= (#[trigger] events[j]).time()
}

/// Every event happens no earlier than `low` and no later than `high`.
pub open spec fn within(events: Seq<SyncEvent>, low: nat, high: nat) -> bool {
    forall|i: int|
        0 <= i < events.len() ==> low <= (#[trigger] events[i]).time() && events[i].time() <= high
}

/// Each time is at least `gap` after the one before it.
pub open spec fn spaced(times: Seq<nat>, gap: nat) -> bool {
    forall|i: int| 0 < i < times.len() ==> #[trigger] times[i] >= times[i - 1] + gap
}

proof fn lemma_flushes_after(state: FlushState, events: Seq<SyncEvent>, floor: nat)
    requires
        monotonic(events),
        forall|i: int| 0 <= i < events.len() ==> (#[trigger] events[i]).time() >= floor,
        state.flushing || state.last_sync >= floor,
    ensures
        spaced(flush_times(state, events), state.min_interval),
        flush_times(state, events).len() > 0 ==> flush_times(state, events)[0] >= floor
            + state.min_interval,
    decreases events.len(),
{
    if events.len() > 0 {
        let first = events[0];
        let rest = events.drop_first();
        let next = step(state, first);
        assert forall|i: int, j: int| 0 <= i <= j < rest.len() implies (#[trigger] rest[i]).time()
            <= (#[trigger] rest[j]).time() by {
            assert(rest[i] == events[i + 1]);
            assert(rest[j] == events[j + 1]);
        }
        if starts_flush(state, first) {
            assert forall|i: int| 0 <= i < rest.len() implies (#[trigger] rest[i]).time()
                >= first.time() by {
                assert(rest[i] == events[i + 1]);
            }
            lemma_flushes_after(next, rest, first.time());
            let tail = flush_times(next, rest);
            let all = seq![first.time()] + tail;
            assert(flush_times(state, events) == all);
            assert forall|i: int| 0 < i < all.len() implies #[trigger] all[i] >= all[i - 1]
                + state.min_interval by {
                if i == 1 {
                    assert(all[1] == tail[0]);
                } else {
                    assert(all[i] == tail[i - 1]);
                    assert(all[i - 1] == tail[i - 2]);
                }
            }
        } else {
            assert forall|i: int| 0 <= i < rest.len() implies (#[trigger] rest[i]).time()
                >= floor by {
                assert(rest[i] == events[i + 1]);
            }
            lemma_flushes_after(next, rest, floor);
        }
    }
}

/// However many notifications arrive, and whenever the flushes end: as long as
/// the clock does not run backwards, each flush starts at least the minimum
/// interval after the one before it.
pub proof fn lemma_flushes_are_spaced(state: FlushState, events: Seq<SyncEvent>)
    requires
        monotonic(events),
    ensures
        spaced(flush_times(state, events), state.min_interval),
{
    lemma_flushes_after(state, events, 0);
}

proof fn lemma_flush_times_within(state: FlushState, events: Seq<SyncEvent>, low: nat, high: nat)
    requires
        within(events, low, high),
    ensures
        forall|k: int|
            0 <= k < flush_times(state, events).len() ==> low <= (#[trigger] flush_times(
                state,
                events,
            )[k]) && flush_times(state, events)[k] <= high,
    decreases events.len(),
{
    if events.len() > 0 {
        let rest = events.drop_first();
        assert forall|i: int| 0 <= i < rest.len() implies low <= (#[trigger] rest[i]).time()
            && rest[i].time() <= high by {
            assert(rest[i] == events[i + 1]);
        }
        lemma_flush_times_within(step(state, events[0]), rest, low, high);
        let tail = flush_times(step(state, events[0]), rest);
        let all = flush_times(state, events);
        assert forall|k: int| 0 <= k < all.len() implies low <= (#[trigger] all[k]) && all[k]
            <= high by {
            if starts_flush(state, events[0]) {
                assert(all == seq![events[0].time()] + tail);
                if k > 0 {
                    assert(all[k] == tail[k - 1]);
                }
            }
        }
    }
}

/// Notifications that all arrive within a window shorter than the minimum
/// interval start at most one flush.
pub proof fn lemma_one_flush_per_window(
    state: FlushState,
    events: Seq<SyncEvent>,
    start: nat,
    end: nat,
)
    requires
        monotonic(events),
        within(events, start, end),
        end - start < state.min_interval,
    ensures
        flush_times(state, events).len() <= 1,
{
    lemma_flushes_are_spaced(state, events);
    lemma_flush_times_within(state, events, start, end);
    let times = flush_times(state, events);
    if times.len() >= 2 {
        assert(times[1] >= times[0] + state.min_interval);
        assert(start <= times[0] && times[0] <= end);
        assert(start <= times[1] && times[1] <= end);
    }
}

/// An idle actor flushes on the first notification that arrives once the
/// minimum interval has passed, so writes that span more than the interval are
/// not left without a flush.
pub proof fn lemma_due_command_flushes(state: FlushState, now: nat)
    requires
        !state.flushing,
        now >= state.last_sync + state.min_interval,
    ensures
        state.action(now) == SyncAction::Flush,
        flush_times(state, seq![SyncEvent::Command { now }]) == seq![now],
{
    let events = seq![SyncEvent::Command { now }];
    assert(events.drop_first() =~= Seq::<SyncEvent>::empty());
    assert(flush_times(step(state, events[0]), events.drop_first()) =~= Seq::<nat>::empty());
    assert(flush_times(state, events) =~= seq![now]);
}

} // verus!
