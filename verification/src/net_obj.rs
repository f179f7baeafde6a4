//! Stable, session-independent identifiers for replicated actors, and the
//! monotonic-tick guard that protects every replicated field against stale or
//! duplicate network delivery.

use vstd::prelude::*;

use crate::tick::Tick;

verus! {

/// Relies on rand::random: a value drawn from the thread-local generator.
/// Nothing is promised of the value.
#[verifier::external_body]
fn random_u64() -> u64 {
    rand::random()
}

/// A stable actor identifier, unique within one instance, distinguishing
/// dynamically allocated identities from statically assigned ones.
#[derive(Debug, Clone, Copy, PartialEq, Eq, Structural, Hash)]
pub enum NetworkObject {
    Dynamic(u64),
    Static(u64),
}

impl NetworkObject {
    /// A freshly drawn dynamic identity.
    pub fn new_rand() -> (r: Self)
        ensures
            r is Dynamic,
    {
        NetworkObject::Dynamic(random_u64())
    }

    pub fn new_static(id: u64) -> (r: Self)
        ensures
            r == NetworkObject::Static(id),
    {
        NetworkObject::Static(id)
    }
}

/// Guards a replicated field against regression: an update is accepted only
/// if it carries a tick strictly greater than every tick accepted before.
#[derive(Debug, Clone, Copy, PartialEq, Eq, Structural)]
pub struct LastSyncTracker {
    pub last_tick: Tick,
}

impl LastSyncTracker {
    pub fn new(tick: Tick) -> (r: Self)
        ensures
            r.last_tick == tick,
    {
        LastSyncTracker { last_tick: tick }
    }

    /// Whether a tracker accepts an update carrying `tick`.
    pub open spec fn accepts(self, tick: Tick) -> bool {
        self.last_tick.0 < tick.0
    }

    /// The tracker after it saw an update carrying `tick`.
    pub open spec fn step(self, tick: Tick) -> LastSyncTracker {
        if self.accepts(tick) {
            LastSyncTracker { last_tick: tick }
        } else {
            self
        }
    }

    /// Accepts `tick` exactly when it is strictly newer than the last
    /// accepted one, recording it in that case and leaving the tracker
    /// untouched otherwise.
    pub fn should_update(&mut self, tick: Tick) -> (accepted: bool)
        ensures
            accepted == old(self).accepts(tick),
            *final(self) == old(self).step(tick),
    {
        let accepted = self.last_tick.0 < tick.0;
        if accepted {
            self.last_tick = tick;
        }
        accepted
    }
}

/// For ticks `t1 < t2`: a tracker that has accepted `t2` rejects every
/// subsequent update carrying `t1` or `t2` again — no regression and no
/// duplicate acceptance — and a rejected update leaves the tracker unchanged,
/// so the guard stays in force.
pub proof fn lemma_sync_tracker_monotonic(tracker: LastSyncTracker, t1: Tick, t2: Tick)
    requires
        t1.0 < t2.0,
        tracker.accepts(t2),
    ensures
        !tracker.step(t2).accepts(t1),
        !tracker.step(t2).accepts(t2),
        tracker.step(t2).step(t1) == tracker.step(t2),
        tracker.step(t2).step(t2) == tracker.step(t2),
{
}

} // verus!
