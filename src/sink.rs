//! Persistence start-up: migrations, then the purge of the current day's rows,
//! and only then the draining of the inbound queues into storage.
use vstd::prelude::*;

use crate::replay::{day_begin, MAX_DAY, MILLIS_PER_DAY};

verus! {

/// Earliest instant whose day start fits in `i64` milliseconds.
pub const MIN_INSTANT: i64 = -9_223_372_036_742_400_000;

/// Day number (days since 1970-01-01) of the instant `t`.
pub open spec fn day_of(t: int) -> int {
    t / (MILLIS_PER_DAY as int)
}

/// Whether the start-up purge with cutoff `cutoff` deletes a row received at `t`.
pub open spec fn purged(t: int, cutoff: int) -> bool {
    t >= cutoff
}

/// Start of the calendar day (UTC) holding `now`: the purge cutoff.
pub fn day_start(now: i64) -> (r: i64)
    requires
        now >= MIN_INSTANT,
    ensures
        r as int == day_begin(day_of(now as int)),
        r <= now < r + MILLIS_PER_DAY,
{
    let d: i64 = MILLIS_PER_DAY;
    let r: i64;
    if now >= 0 {
        let q: i64 = now / d;
        assert(q * d <= now) by (nonlinear_arith)
            requires
                q == now / d,
                now >= 0,
                d > 0,
        ;
        r = q * d;
        proof {
            vstd::arithmetic::div_mod::lemma_fundamental_div_mod(now as int, d as int);
        }
    } else {
        let n: i64 = -(now + 1);
        let q: i64 = n / d;
        proof {
            vstd::arithmetic::div_mod::lemma_fundamental_div_mod(n as int, d as int);
            vstd::arithmetic::div_mod::lemma_mod_bound(n as int, d as int);
            assert(q <= MAX_DAY);
            assert((q + 1) * d <= (MAX_DAY + 1) * d) by (nonlinear_arith)
                requires
                    q <= MAX_DAY,
                    d > 0,
            ;
        }
        r = -((q + 1) * d);
        proof {
            let m = n - q * d;
            assert(now == -(q + 1) * d + (d - 1 - m)) by (nonlinear_arith)
                requires
                    n == -(now + 1),
                    m == n - q * d,
            ;
            vstd::arithmetic::div_mod::lemma_fundamental_div_mod_converse(
                now as int,
                d as int,
                -(q + 1),
                d - 1 - m,
            );
        }
    }
    proof {
        vstd::arithmetic::div_mod::lemma_fundamental_div_mod(now as int, d as int);
        vstd::arithmetic::div_mod::lemma_mod_bound(now as int, d as int);
    }
    r
}

/// Same-day restart: when storing runs again on the day of `now`, the purge
/// with cutoff `day_start(now)` deletes every row received earlier that day
/// (all rows of an earlier run that day among them) and keeps every row of an
/// earlier day.
pub proof fn lemma_same_day_purge(t: int, now: int)
    requires
        t <= now,
    ensures
        day_of(t) == day_of(now) ==> purged(t, day_begin(day_of(now))),
        day_of(t) < day_of(now) ==> !purged(t, day_begin(day_of(now))),
{
    let d = MILLIS_PER_DAY as int;
    vstd::arithmetic::div_mod::lemma_fundamental_div_mod(t, d);
    vstd::arithmetic::div_mod::lemma_mod_bound(t, d);
    if day_of(t) < day_of(now) {
        assert(day_of(t) * d + d <= day_of(now) * d) by (nonlinear_arith)
            requires
                day_of(t) + 1 <= day_of(now),
                d > 0,
        ;
    }
}

/// Steps of the persistence start-up, in order.
#[derive(Clone, Copy, Debug, PartialEq, Eq, Structural)]
pub enum SinkPhase {
    /// Applying pending migrations.
    Migrating,
    /// Deleting the current day's trades.
    PurgingTrades,
    /// Deleting the current day's order books.
    PurgingOrderBooks,
    /// Appending queued events as new rows.
    Draining,
    /// The storage pool is released.
    Closed,
}

/// What storage reported, or the shutdown signal.
#[derive(Clone, Copy, Debug, PartialEq, Eq, Structural)]
pub enum SinkEvent {
    /// The current step completed.
    Done,
    /// The current step failed.
    Failed,
    /// The shutdown signal fired.
    Cancelled,
}

/// What the persistence loop does next.
#[derive(Clone, Copy, Debug, PartialEq, Eq, Structural)]
pub enum SinkAction {
    /// Delete the trades received at or after the cutoff.
    PurgeTrades(i64),
    /// Delete the order books received at or after the cutoff.
    PurgeOrderBooks(i64),
    /// Drain the inbound queues into storage.
    Drain,
    /// Release the storage pool and stop.
    Close,
    /// Stop with the start-up error.
    Abort,
}

/// The persistence start-up sequence, with the purge cutoff of its day.
#[derive(Clone, Copy, Debug, PartialEq, Eq, Structural)]
pub struct StartupSequence {
    pub phase: SinkPhase,
    pub cutoff: i64,
}

impl StartupSequence {
    /// A start-up at `now`: migrations first, then the purge from the start of
    /// the day of `now`.
    pub fn new(now: i64) -> (r: StartupSequence)
        requires
            now >= MIN_INSTANT,
        ensures
            r.phase == SinkPhase::Migrating,
            r.cutoff as int == day_begin(day_of(now as int)),
    {
        StartupSequence { phase: SinkPhase::Migrating, cutoff: day_start(now) }
    }

    /// Advances on `ev`. Draining starts only after both purges completed,
    /// any start-up failure aborts, and cancellation closes the pool.
    pub fn step(&mut self, ev: SinkEvent) -> (a: SinkAction)
        ensures
            final(self).cutoff == old(self).cutoff,
            old(self).phase == SinkPhase::Closed ==> a == SinkAction::Close && *final(self) == *old(
                self,
            ),
            old(self).phase != SinkPhase::Closed && ev == SinkEvent::Cancelled ==> a
                == SinkAction::Close && final(self).phase == SinkPhase::Closed,
            old(self).phase != SinkPhase::Closed && old(self).phase != SinkPhase::Draining && ev
                == SinkEvent::Failed ==> a == SinkAction::Abort && final(self).phase
                == SinkPhase::Closed,
            old(self).phase == SinkPhase::Draining && ev != SinkEvent::Cancelled ==> a
                == SinkAction::Drain && *final(self) == *old(self),
            ev == SinkEvent::Done ==> {
                &&& old(self).phase == SinkPhase::Migrating ==> a == SinkAction::PurgeTrades(
                    old(self).cutoff,
                ) && final(self).phase == SinkPhase::PurgingTrades
                &&& old(self).phase == SinkPhase::PurgingTrades ==> a
                    == SinkAction::PurgeOrderBooks(old(self).cutoff) && final(self).phase
                    == SinkPhase::PurgingOrderBooks
                &&& old(self).phase == SinkPhase::PurgingOrderBooks ==> a == SinkAction::Drain
                    && final(self).phase == SinkPhase::Draining
            },
    {
        if self.phase == SinkPhase::Closed {
            return SinkAction::Close;
        }
        match ev {
            SinkEvent::Cancelled => {
                self.phase = SinkPhase::Closed;
                SinkAction::Close
            },
            SinkEvent::Failed => {
                if self.phase == SinkPhase::Draining {
                    SinkAction::Drain
                } else {
                    self.phase = SinkPhase::Closed;
                    SinkAction::Abort
                }
            },
            SinkEvent::Done => {
                match self.phase {
                    SinkPhase::Migrating => {
                        self.phase = SinkPhase::PurgingTrades;
                        SinkAction::PurgeTrades(self.cutoff)
                    },
                    SinkPhase::PurgingTrades => {
                        self.phase = SinkPhase::PurgingOrderBooks;
                        SinkAction::PurgeOrderBooks(self.cutoff)
                    },
                    _ => {
                        self.phase = SinkPhase::Draining;
                        SinkAction::Drain
                    },
                }
            },
        }
    }
}

} // verus!
