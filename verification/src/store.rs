//! The shared stats store: one writer, many concurrent readers.
//!
//! Exactly one store exists per process. The subscriber is its sole writer;
//! an unbounded number of request handlers read it concurrently. A
//! reader/writer lock arbitrates access: a read takes shared access only for
//! the duration of a field-by-field copy, a write takes exclusive access
//! only for the duration of a single-field overwrite, so no reader ever
//! observes a torn write and the writer never waits on a suspended reader.
//! The lock and its mutual exclusion are vstd's verified
//! [`vstd::rwlock::RwLock`]; what each write does to the snapshot is pinned
//! down by the contracts on [`MqttStats`](crate::stats::MqttStats).

use vstd::prelude::*;
use vstd::rwlock::{RwLock, RwLockPredicate};

use crate::stats::{MqttStats, StatField};
use crate::subscriber::{BrokerEvent, StatWrite, Subscriber, spec_step};

verus! {

/// What may be stored in the stats lock: any snapshot. Field values are
/// accepted verbatim, empty strings included; no validation is performed.
pub struct StatsPred {}

impl RwLockPredicate<MqttStats> for StatsPred {
    open spec fn inv(self, v: MqttStats) -> bool {
        true
    }
}

/// The shared cache of last-known telemetry values, guarded for concurrent
/// multi-reader/single-writer access.
pub struct StatsStore {
    lock: RwLock<MqttStats, StatsPred>,
}

impl StatsStore {
    /// An empty store: the all-empty initial snapshot, no data received
    /// yet.
    pub fn new() -> StatsStore {
        StatsStore { lock: RwLock::new(MqttStats::default(), Ghost(StatsPred {})) }
    }

    /// The read operation serving the request layer: take shared access,
    /// copy all four fields, release, return the copy. It always succeeds
    /// and never blocks longer than an in-progress single-field write.
    pub fn read(&self) -> MqttStats {
        let handle = self.lock.acquire_read();
        let snapshot = handle.borrow().duplicate();
        handle.release_read();
        snapshot
    }

    /// Overwrite exactly one field, holding exclusive access only for the
    /// duration of the single-field write.
    pub fn write_field(&self, field: StatField, value: String) {
        let (mut stats, handle) = self.lock.acquire_write();
        stats.write_field(field, value);
        handle.release_write(stats);
    }

    /// Apply a pending field write produced by the subscriber.
    pub fn apply(&self, w: StatWrite) {
        self.write_field(w.field, w.value);
    }

    /// The body of the subscriber's steady-state loop: step the run-state
    /// machine on one observed event and apply the field write it causes,
    /// if any. A terminated subscriber causes no write, whatever arrives.
    pub fn process_event(&self, subscriber: &mut Subscriber, event: BrokerEvent)
        ensures
            final(subscriber).state == spec_step(old(subscriber).state, event@).0,
    {
        match subscriber.handle_event(event) {
            Some(w) => self.apply(w),
            None => {},
        }
    }
}

} // verus!
