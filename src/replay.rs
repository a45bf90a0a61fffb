//! Replay scheduling: the day window, the start instant, and the pacing of
//! stored events so that their recorded spacing is kept at a chosen speed.
use vstd::prelude::*;

use crate::event::Received;

verus! {

/// Milliseconds in one calendar day.
pub const MILLIS_PER_DAY: i64 = 86_400_000;

/// Largest day number (days since 1970-01-01) whose window fits in `i64` milliseconds.
pub const MAX_DAY: i64 = 106_751_991_166;

/// A half-open interval `[begin, end)` of milliseconds since the epoch.
#[derive(Clone, Copy, Debug, PartialEq, Eq, Structural)]
pub struct DayWindow {
    pub begin: i64,
    pub end: i64,
}

/// Why a replay run cannot start or has to stop.
#[derive(Clone, Copy, Debug, PartialEq, Eq, Structural)]
pub enum ReplayError {
    /// The speed multiplier was zero.
    InvalidSpeed,
    /// No event of either kind was stored on the requested day.
    NoRows,
}

/// First millisecond of day `day`.
pub open spec fn day_begin(day: int) -> int {
    day * MILLIS_PER_DAY
}

/// The pause before an event received at `cur`, when the previous one of the
/// stream was received at `prev`: the positive gap divided by `speed`.
pub open spec fn pause_spec(prev: int, cur: int, speed: int) -> int {
    if cur > prev {
        (cur - prev) / speed
    } else {
        0
    }
}

/// The window `[day 00:00:00, day + 1 00:00:00)` of day number `day`.
pub fn get_interval(day: i64) -> (r: DayWindow)
    requires
        -MAX_DAY <= day <= MAX_DAY,
    ensures
        r.begin == day_begin(day as int),
        r.end == day_begin(day as int + 1),
{
    assert(-MAX_DAY * MILLIS_PER_DAY <= day * MILLIS_PER_DAY <= MAX_DAY * MILLIS_PER_DAY)
        by (nonlinear_arith)
        requires
            -MAX_DAY <= day <= MAX_DAY,
    ;
    let begin: i64 = day * MILLIS_PER_DAY;
    DayWindow { begin, end: begin + MILLIS_PER_DAY }
}

/// Pause, in milliseconds, before re-emitting an event received at `cur` when the
/// previous event of its stream was received at `prev`.
pub fn pause_millis(prev: i64, cur: i64, speed: u16) -> (r: u64)
    requires
        speed >= 1,
    ensures
        r as int == pause_spec(prev as int, cur as int, speed as int),
{
    if cur > prev {
        let delta: u64 = (cur as i128 - prev as i128) as u64;
        delta / (speed as u64)
    } else {
        0
    }
}

/// The replay start instant: the earliest received time over both event tables
/// of the day, given the earliest of each (`None` where a table has no row).
pub fn start_instant(trade_min: Option<i64>, order_book_min: Option<i64>) -> (r: Result<
    i64,
    ReplayError,
>)
    ensures
        r is Err <==> (trade_min is None && order_book_min is None),
        r is Err ==> r == Err::<i64, ReplayError>(ReplayError::NoRows),
        r is Ok ==> {
            &&& (trade_min matches Some(t) ==> r->Ok_0 <= t)
            &&& (order_book_min matches Some(o) ==> r->Ok_0 <= o)
            &&& (trade_min == Some(r->Ok_0) || order_book_min == Some(r->Ok_0))
        },
{
    match (trade_min, order_book_min) {
        (Some(t), Some(o)) => Ok(if t <= o { t } else { o }),
        (Some(t), None) => Ok(t),
        (None, Some(o)) => Ok(o),
        (None, None) => Err(ReplayError::NoRows),
    }
}

} // verus!

verus! {

/// What the storage cursor of one stream reported.
#[derive(Clone, Copy, Debug, PartialEq, Eq, Structural)]
pub enum ReplayEvent {
    /// The next stored event, received at the given time.
    Item(i64),
    /// The cursor has no more rows.
    Exhausted,
    /// Reading the next row failed.
    ReadFailed,
    /// The shutdown signal fired.
    Cancelled,
}

/// What the stream loop does next.
#[derive(Clone, Copy, Debug, PartialEq, Eq, Structural)]
pub enum ReplayAction {
    /// Wait this many milliseconds, then publish the event.
    Emit(u64),
    /// The stream ends normally.
    Finish,
    /// The stream ends with a storage error, to be surfaced to the caller.
    Abort,
}

/// Pacing state of one replayed stream.
#[derive(Clone, Copy, Debug, PartialEq, Eq, Structural)]
pub struct ReplayStream {
    /// Received time of the last emitted event (the start instant before the first).
    pub prev: i64,
    pub speed: u16,
    pub done: bool,
}

impl ReplayStream {
    /// A stream is well formed when its speed is positive.
    pub open spec fn wf(&self) -> bool {
        self.speed >= 1
    }

    /// Starts a stream at `start`; a zero speed is rejected.
    pub fn new(start: i64, speed: u16) -> (r: Result<ReplayStream, ReplayError>)
        ensures
            speed == 0 <==> r is Err,
            r is Err ==> r->Err_0 == ReplayError::InvalidSpeed,
            r is Ok ==> (r->Ok_0 == ReplayStream { prev: start, speed, done: false }),
            r is Ok ==> r->Ok_0.wf(),
    {
        if speed == 0 {
            Err(ReplayError::InvalidSpeed)
        } else {
            Ok(ReplayStream { prev: start, speed, done: false })
        }
    }

    /// Decides what to do with what the cursor reported. Once a stream has
    /// finished or aborted, it emits nothing more.
    pub fn step(&mut self, ev: ReplayEvent) -> (a: ReplayAction)
        requires
            old(self).wf(),
        ensures
            final(self).wf(),
            final(self).speed == old(self).speed,
            old(self).done ==> a == ReplayAction::Finish && *final(self) == *old(self),
            !old(self).done ==> match ev {
                ReplayEvent::Item(t) => {
                    &&& a == ReplayAction::Emit(
                        pause_spec(old(self).prev as int, t as int, old(self).speed as int) as u64,
                    )
                    &&& final(self).prev == t
                    &&& !final(self).done
                },
                ReplayEvent::ReadFailed => {
                    &&& a == ReplayAction::Abort
                    &&& final(self).done
                    &&& final(self).prev == old(self).prev
                },
                _ => {
                    &&& a == ReplayAction::Finish
                    &&& final(self).done
                    &&& final(self).prev == old(self).prev
                },
            },
    {
        if self.done {
            return ReplayAction::Finish;
        }
        match ev {
            ReplayEvent::Item(t) => {
                let p = pause_millis(self.prev, t, self.speed);
                self.prev = t;
                ReplayAction::Emit(p)
            },
            ReplayEvent::ReadFailed => {
                self.done = true;
                ReplayAction::Abort
            },
            _ => {
                self.done = true;
                ReplayAction::Finish
            },
        }
    }

    /// Decides the pause before re-emitting `item`, keeping its received time.
    pub fn on_item<T: Received>(&mut self, item: &T) -> (a: ReplayAction)
        requires
            old(self).wf(),
        ensures
            final(self).wf(),
            final(self).speed == old(self).speed,
            old(self).done ==> a == ReplayAction::Finish && *final(self) == *old(self),
            !old(self).done ==> {
                &&& a == ReplayAction::Emit(
                    pause_spec(old(self).prev as int, item.received_at(), old(self).speed as int)
                        as u64,
                )
                &&& final(self).prev as int == item.received_at()
                &&& !final(self).done
            },
    {
        let t = item.received();
        self.step(ReplayEvent::Item(t))
    }
}

/// Received time of the event before the `i`-th of `ts`, or `start` for the first.
pub open spec fn prev_of(ts: Seq<i64>, start: int, i: int) -> int {
    if i == 0 {
        start
    } else {
        ts[i - 1] as int
    }
}

/// The pauses before each event of a stream whose received times are `ts`.
pub open spec fn plan_spec(ts: Seq<i64>, start: int, speed: int) -> Seq<int> {
    Seq::new(ts.len(), |i: int| pause_spec(prev_of(ts, start, i), ts[i] as int, speed))
}

/// Sum of the first `n` pauses of the stream.
pub open spec fn total_pause(ts: Seq<i64>, start: int, speed: int, n: nat) -> int
    decreases n,
{
    if n == 0 {
        0
    } else {
        total_pause(ts, start, speed, (n - 1) as nat) + pause_spec(
            prev_of(ts, start, n - 1),
            ts[n - 1] as int,
            speed,
        )
    }
}

/// Time from the start instant to the last of the first `n` events.
pub open spec fn span_spec(ts: Seq<i64>, start: int, n: nat) -> int {
    if n == 0 {
        0
    } else {
        ts[n - 1] - start
    }
}

/// Whether `ts` never decreases and does not begin before `start`.
pub open spec fn ordered_from(ts: Seq<i64>, start: int) -> bool {
    &&& forall|i: int, j: int| 0 <= i <= j < ts.len() ==> ts[i] <= ts[j]
    &&& ts.len() > 0 ==> start <= ts[0]
}

/// The pauses that replaying a stream with received times `received` from
/// `start` at `speed` inserts, one before each event, in stored order.
pub fn pacing_plan(received: &Vec<i64>, start: i64, speed: u16) -> (r: Result<
    Vec<u64>,
    ReplayError,
>)
    ensures
        speed == 0 <==> r is Err,
        r is Err ==> r->Err_0 == ReplayError::InvalidSpeed,
        r is Ok ==> is_plan_of(r->Ok_0@, received@, start as int, speed as int),
{
    let mut stream = match ReplayStream::new(start, speed) {
        Ok(s) => s,
        Err(e) => return Err(e),
    };
    let mut out: Vec<u64> = Vec::new();
    let mut i: usize = 0;
    while i < received.len()
        invariant
            stream.wf(),
            !stream.done,
            stream.speed == speed,
            i <= received@.len(),
            stream.prev as int == prev_of(received@, start as int, i as int),
            out@.len() == i,
            forall|k: int|
                0 <= k < i ==> out@[k] as int == plan_spec(received@, start as int, speed as int)[k],
        decreases received@.len() - i,
    {
        let a = stream.step(ReplayEvent::Item(received[i]));
        match a {
            ReplayAction::Emit(p) => {
                proof {
                    let d = received@[i as int] - prev_of(received@, start as int, i as int);
                    if d > 0 {
                        assert(d / (speed as int) <= d) by (nonlinear_arith)
                            requires
                                d > 0,
                                speed >= 1,
                        ;
                        assert(d < 0x1_0000_0000_0000_0000);
                    }
                }
                out.push(p);
            },
            _ => {},
        }
        i = i + 1;
    }
    assert(forall|k: int|
        0 <= k < received@.len() ==> #[trigger] out@[k] as int == plan_spec(
            received@,
            start as int,
            speed as int,
        )[k]);
    Ok(out)
}

/// One step of the pacing sum: the pause for a non-negative gap `d` loses
/// less than one `speed` of it to rounding.
proof fn lemma_pause_bounds(d: int, speed: int)
    requires
        d >= 0,
        speed >= 1,
    ensures
        speed * (d / speed) <= d,
        d - speed * (d / speed) <= speed - 1,
        speed == 1 ==> d / speed == d,
{
    vstd::arithmetic::div_mod::lemma_fundamental_div_mod(d, speed);
    vstd::arithmetic::div_mod::lemma_mod_bound(d, speed);
}

/// Speed scaling: for received times that never decrease from the start
/// instant, the total pacing of `n` events times `speed` stays within the
/// recorded span, and falls short of it by less than one `speed` per event.
pub proof fn lemma_pacing_scaled(ts: Seq<i64>, start: int, speed: int, n: nat)
    requires
        speed >= 1,
        ordered_from(ts, start),
        n <= ts.len(),
    ensures
        speed * total_pause(ts, start, speed, n) <= span_spec(ts, start, n),
        span_spec(ts, start, n) - speed * total_pause(ts, start, speed, n) <= n * (speed - 1),
    decreases n,
{
    if n > 0 {
        let m = (n - 1) as nat;
        lemma_pacing_scaled(ts, start, speed, m);
        let prev = prev_of(ts, start, n - 1);
        let d = ts[n - 1] - prev;
        assert(d >= 0);
        lemma_pause_bounds(d, speed);
        assert(span_spec(ts, start, n) == span_spec(ts, start, m) + d);
        let t0 = total_pause(ts, start, speed, m);
        assert(total_pause(ts, start, speed, n) == t0 + d / speed);
        assert(speed * (t0 + d / speed) == speed * t0 + speed * (d / speed)) by (nonlinear_arith);
        assert(n * (speed - 1) == m * (speed - 1) + (speed - 1)) by (nonlinear_arith)
            requires
                m + 1 == n,
        ;
    }
}

/// At unit speed the total pacing equals the span from the start instant to
/// the last event, so two replays of one stored day take the same time.
pub proof fn lemma_pacing_unit_speed(ts: Seq<i64>, start: int)
    requires
        ordered_from(ts, start),
    ensures
        total_pause(ts, start, 1, ts.len()) == span_spec(ts, start, ts.len()),
{
    lemma_pacing_scaled(ts, start, 1, ts.len());
}

/// Sum of the pauses `p`.
pub open spec fn sum_pauses(p: Seq<u64>) -> int
    decreases p.len(),
{
    if p.len() == 0 {
        0
    } else {
        sum_pauses(p.drop_last()) + p.last()
    }
}

/// Whether `p` holds exactly the planned pauses of the stream `ts`.
pub open spec fn is_plan_of(p: Seq<u64>, ts: Seq<i64>, start: int, speed: int) -> bool {
    &&& p.len() == ts.len()
    &&& forall|i: int| 0 <= i < ts.len() ==> #[trigger] p[i] as int == plan_spec(ts, start, speed)[i]
}

proof fn lemma_plan_sum(p: Seq<u64>, ts: Seq<i64>, start: int, speed: int, n: nat)
    requires
        is_plan_of(p, ts, start, speed),
        n <= ts.len(),
    ensures
        sum_pauses(p.take(n as int)) == total_pause(ts, start, speed, n),
    decreases n,
{
    if n > 0 {
        lemma_plan_sum(p, ts, start, speed, (n - 1) as nat);
        assert(p.take(n as int).drop_last() =~= p.take(n - 1));
        assert(p[n - 1] as int == plan_spec(ts, start, speed)[n - 1]);
    }
}

/// Replay determinism: any two pacing plans of one stored stream at unit
/// speed are identical, and each paces exactly the span from the start
/// instant to the last event.
pub proof fn lemma_replay_deterministic(ts: Seq<i64>, start: int, p1: Seq<u64>, p2: Seq<u64>)
    requires
        ordered_from(ts, start),
        is_plan_of(p1, ts, start, 1),
        is_plan_of(p2, ts, start, 1),
    ensures
        p1 == p2,
        sum_pauses(p1) == span_spec(ts, start, ts.len()),
{
    assert(p1 =~= p2) by {
        assert forall|i: int| 0 <= i < p1.len() implies p1[i] == p2[i] by {
            assert(p1[i] as int == plan_spec(ts, start, 1)[i]);
            assert(p2[i] as int == plan_spec(ts, start, 1)[i]);
        }
    }
    lemma_plan_sum(p1, ts, start, 1, ts.len());
    assert(p1.take(ts.len() as int) =~= p1);
    lemma_pacing_unit_speed(ts, start);
}

/// Speed scaling: the pauses of a pacing plan at `speed`, times `speed`, add
/// up to at most the recorded span and fall short of it by less than one
/// `speed` per event, so a span replayed at speed `speed` takes about
/// `span / speed`.
pub proof fn lemma_replay_speed_scaling(ts: Seq<i64>, start: int, speed: int, p: Seq<u64>)
    requires
        speed >= 1,
        ordered_from(ts, start),
        is_plan_of(p, ts, start, speed),
    ensures
        speed * sum_pauses(p) <= span_spec(ts, start, ts.len()),
        span_spec(ts, start, ts.len()) - speed * sum_pauses(p) <= ts.len() * (speed - 1),
{
    lemma_plan_sum(p, ts, start, speed, ts.len());
    assert(p.take(ts.len() as int) =~= p);
    lemma_pacing_scaled(ts, start, speed, ts.len());
}

} // verus!
