//! The world tick clock: a tick is due once a whole interval has passed
//! since the last one.

use vstd::prelude::*;

use bevy::ecs::world::World;
use std::time::Instant;

use super::clock::{duration_nanos, instant_elapsed, instant_now};

verus! {

/// The ECS world that the systems run by a tick act on.
#[verifier::external_type_specification]
#[verifier::external_body]
pub struct ExWorld(World);

/// Nanoseconds elapsed since `origin` on the monotonic clock.
fn nanos_since(origin: &Instant) -> (res: u128) {
    duration_nanos(&instant_elapsed(origin))
}

/// A tick interval of `secs` seconds, in nanoseconds.
pub open spec fn interval_nanos(secs: u64) -> int {
    secs * 1_000_000_000
}

/// Time elapsed from `last` to `now`, both in nanoseconds since the clock's
/// origin; zero when `now` lies before `last` (the subtraction saturates).
pub open spec fn elapsed_between(last: u128, now: u128) -> int {
    if now >= last {
        now - last
    } else {
        0
    }
}

/// A tick is due at `now` when a whole interval has passed since `last`.
pub open spec fn tick_due(secs: u64, last: u128, now: u128) -> bool {
    elapsed_between(last, now) >= interval_nanos(secs)
}

/// Nanoseconds from `now` until the next tick is due; zero once it is.
pub open spec fn remaining_until_tick(secs: u64, last: u128, now: u128) -> int {
    if tick_due(secs, last, now) {
        0
    } else {
        interval_nanos(secs) - elapsed_between(last, now)
    }
}

/// Counts world ticks and decides when the next one is due.
#[derive(Debug)]
pub struct TickScheduler {
    pub tick_interval_secs: u64,
    pub current_tick: u64,
    /// Time of the last tick, in nanoseconds since `origin`.
    pub last_tick_nanos: u128,
    /// Point of the monotonic clock that the times above count from.
    pub origin: Instant,
}

impl TickScheduler {
    /// A scheduler with a tick every `interval_seconds` seconds, at tick 0,
    /// whose last tick is now.
    pub fn new(interval_seconds: u64) -> (res: Self)
        ensures
            res.tick_interval_secs == interval_seconds,
            res.current_tick == 0,
            res.last_tick_nanos == 0,
    {
        TickScheduler {
            tick_interval_secs: interval_seconds,
            current_tick: 0,
            last_tick_nanos: 0,
            origin: instant_now(),
        }
    }

    /// A tick is due at `now_nanos` (nanoseconds since the clock's origin).
    pub fn should_tick_at(&self, now_nanos: u128) -> (res: bool)
        ensures
            res == tick_due(self.tick_interval_secs, self.last_tick_nanos, now_nanos),
    {
        let elapsed = now_nanos.saturating_sub(self.last_tick_nanos);
        let interval = (self.tick_interval_secs as u128) * 1_000_000_000u128;
        elapsed >= interval
    }

    /// A tick is due now: the answer of `should_tick_at` at the clock's
    /// current reading, whose value no clause fixes.
    pub fn should_tick(&self) -> (res: bool)
        ensures
            exists|now: u128|
                res == #[trigger] tick_due(self.tick_interval_secs, self.last_tick_nanos, now),
    {
        let now = nanos_since(&self.origin);
        let res = self.should_tick_at(now);
        assert(res == tick_due(self.tick_interval_secs, self.last_tick_nanos, now));
        res
    }

    /// Advances to the next tick, taken at `now_nanos`.
    pub fn execute_tick_at(&mut self, now_nanos: u128)
        requires
            old(self).current_tick < u64::MAX,
        ensures
            final(self).current_tick == old(self).current_tick + 1,
            final(self).last_tick_nanos == now_nanos,
            final(self).tick_interval_secs == old(self).tick_interval_secs,
            final(self).origin == old(self).origin,
    {
        self.current_tick = self.current_tick + 1;
        self.last_tick_nanos = now_nanos;
    }

    /// Advances to the next tick, taken now. The world is handed over for
    /// the systems a tick runs; none acts on it yet.
    pub fn execute_tick(&mut self, world: &mut World)
        requires
            old(self).current_tick < u64::MAX,
        ensures
            final(self).current_tick == old(self).current_tick + 1,
            final(self).tick_interval_secs == old(self).tick_interval_secs,
            final(self).origin == old(self).origin,
            *final(world) == *old(world),
    {
        let now = nanos_since(&self.origin);
        self.execute_tick_at(now);
    }

    /// Nanoseconds from `now_nanos` until the next tick is due.
    pub fn time_until_next_tick_at(&self, now_nanos: u128) -> (res: u128)
        ensures
            res == remaining_until_tick(self.tick_interval_secs, self.last_tick_nanos, now_nanos),
    {
        let elapsed = now_nanos.saturating_sub(self.last_tick_nanos);
        let interval = (self.tick_interval_secs as u128) * 1_000_000_000u128;
        interval.saturating_sub(elapsed)
    }

    /// Nanoseconds from now until the next tick is due: the answer of
    /// `time_until_next_tick_at` at the clock's current reading, whose value
    /// no clause fixes.
    pub fn time_until_next_tick(&self) -> (res: u128)
        ensures
            exists|now: u128|
                res == #[trigger] remaining_until_tick(self.tick_interval_secs, self.last_tick_nanos, now),
    {
        let now = nanos_since(&self.origin);
        let res = self.time_until_next_tick_at(now);
        assert(res == remaining_until_tick(self.tick_interval_secs, self.last_tick_nanos, now));
        res
    }
}

/// Right after a tick, the next one is a whole interval away, and it is due
/// only when the interval is zero.
pub proof fn tick_restarts_wait(secs: u64, now: u128)
    ensures
        remaining_until_tick(secs, now, now) == interval_nanos(secs),
        tick_due(secs, now, now) <==> secs == 0,
{
}

/// A tick is due exactly when no time remains until it.
pub proof fn due_iff_nothing_remains(secs: u64, last: u128, now: u128)
    ensures
        tick_due(secs, last, now) <==> remaining_until_tick(secs, last, now) == 0,
        0 <= remaining_until_tick(secs, last, now) <= interval_nanos(secs),
{
}

/// Waiting never makes a due tick undue: once due at `now`, it stays due later.
pub proof fn due_stays_due(secs: u64, last: u128, now: u128, later: u128)
    requires
        now <= later,
        tick_due(secs, last, now),
    ensures
        tick_due(secs, last, later),
{
}

} // verus!
