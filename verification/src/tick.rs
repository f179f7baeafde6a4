//! The logical clock of a simulation instance and the client-side derivation
//! of a working tick estimate from a server broadcast.

use vstd::prelude::*;

use std::time::SystemTime;
use std::time::UNIX_EPOCH;

verus! {

/// Ticks advanced per second by the fixed-step loop.
pub const TICKS_PER_SECOND: u64 = 60;

/// Nanoseconds between two broadcasts of the tick correlation message.
pub const TICK_BROADCAST_INTERVAL_NANOS: u64 = 10_000_000_000;

/// A discrete simulation step counter. The authoritative value is owned by
/// the instance simulation and strictly increases; clients hold a derived
/// estimate.
#[derive(Debug, Clone, Copy, PartialEq, Eq, Structural, Hash)]
pub struct Tick(pub u64);

impl Tick {
    pub fn new(tick: u64) -> (r: Self)
        ensures
            r.0 == tick,
    {
        Tick(tick)
    }

    pub fn get(&self) -> (r: u64)
        ensures
            r == self.0,
    {
        self.0
    }

    pub fn increment(&mut self)
        requires
            old(self).0 < u64::MAX,
        ensures
            final(self).0 == old(self).0 + 1,
    {
        self.0 = self.0 + 1;
    }
}

/// Relies on std::time::SystemTime::now and duration_since: milliseconds since
/// the Unix epoch; a clock before the epoch reads as zero.
#[verifier::external_body]
pub fn get_unix_millis() -> u128 {
    match SystemTime::now().duration_since(UNIX_EPOCH) {
        Ok(elapsed) => elapsed.as_millis(),
        Err(_) => 0,
    }
}

/// The tick a client derives from a server correlation `{server_tick,
/// server_millis}` and its own wall clock: the server tick plus one tick per
/// full tick period elapsed since the broadcast. The subtraction saturates at
/// zero to tolerate clock skew, and the sum saturates at `u64::MAX`.
pub open spec fn client_tick_value(server_tick: u64, server_millis: u128, now_millis: u128) -> u64 {
    let elapsed: int = if now_millis >= server_millis {
        now_millis - server_millis
    } else {
        0
    };
    let ticks: int = elapsed * TICKS_PER_SECOND / 1000;
    if server_tick + ticks <= u64::MAX {
        (server_tick + ticks) as u64
    } else {
        u64::MAX
    }
}

/// Derives the client's working tick from a tick correlation broadcast and
/// the local wall-clock reading `now_millis`.
pub fn client_tick_from(server_tick: u64, server_millis: u128, now_millis: u128) -> (r: Tick)
    ensures
        r.0 == client_tick_value(server_tick, server_millis, now_millis),
        r.0 >= server_tick,
{
    let elapsed: u128 = if now_millis >= server_millis {
        now_millis - server_millis
    } else {
        0
    };
    if elapsed <= u128::MAX / TICKS_PER_SECOND as u128 {
        let ticks: u128 = elapsed * TICKS_PER_SECOND as u128 / 1000;
        if ticks <= (u64::MAX - server_tick) as u128 {
            Tick(server_tick + ticks as u64)
        } else {
            Tick(u64::MAX)
        }
    } else {
        proof {
            assert(elapsed * TICKS_PER_SECOND as int / 1000 > u64::MAX) by (nonlinear_arith)
                requires
                    elapsed > u128::MAX / 60,
                    TICKS_PER_SECOND == 60,
            ;
        }
        Tick(u64::MAX)
    }
}

/// Derives the client's working tick from a tick correlation broadcast and
/// the wall clock now. The result is the formula of [`client_tick_value`]
/// applied to whatever the clock read; it never lies before the server tick.
pub fn get_client_tick(server_tick: u64, server_unix_millis: u128) -> (r: Tick)
    ensures
        exists|now: u128| r.0 == client_tick_value(server_tick, server_unix_millis, now),
        r.0 >= server_tick,
{
    let now: u128 = get_unix_millis();
    let r = client_tick_from(server_tick, server_unix_millis, now);
    proof {
        assert(r.0 == client_tick_value(server_tick, server_unix_millis, now));
    }
    r
}

/// Accumulator deciding when the periodic tick correlation broadcast is due.
#[derive(Debug, Clone, Copy, PartialEq, Eq, Structural)]
pub struct TickData {
    pub broadcast_timer_nanos: u64,
}

impl TickData {
    /// A timer that has just fired: no broadcast is due until a full interval
    /// accumulates.
    pub fn new() -> (r: TickData)
        ensures
            r.broadcast_timer_nanos == 0,
    {
        TickData { broadcast_timer_nanos: 0 }
    }

    /// Accumulates `dt_nanos` of elapsed wall time and returns how many tick
    /// correlation broadcasts fell due, consuming one full interval per
    /// broadcast and retaining the remainder.
    pub fn advance(&mut self, dt_nanos: u64) -> (due: u64)
        requires
            old(self).broadcast_timer_nanos < TICK_BROADCAST_INTERVAL_NANOS,
            dt_nanos <= u64::MAX - TICK_BROADCAST_INTERVAL_NANOS,
        ensures
            due == (old(self).broadcast_timer_nanos + dt_nanos) / TICK_BROADCAST_INTERVAL_NANOS as int,
            final(self).broadcast_timer_nanos == (old(self).broadcast_timer_nanos + dt_nanos) % TICK_BROADCAST_INTERVAL_NANOS as int,
            final(self).broadcast_timer_nanos < TICK_BROADCAST_INTERVAL_NANOS,
    {
        let total: u64 = self.broadcast_timer_nanos + dt_nanos;
        let due: u64 = total / TICK_BROADCAST_INTERVAL_NANOS;
        self.broadcast_timer_nanos = total % TICK_BROADCAST_INTERVAL_NANOS;
        due
    }
}

} // verus!
