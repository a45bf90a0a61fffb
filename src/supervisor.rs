//! The supervisor that keeps a flaky long-running operation alive: after each
//! transient failure it waits a fixed delay and invokes the operation again,
//! until the operation ends or cancellation fires.
use vstd::prelude::*;

verus! {

/// Delay between a failure and the next invocation, in milliseconds.
pub const RETRY_DELAY_MS: u64 = 1000;

/// Where the supervised operation stands.
#[derive(Clone, Copy, Debug, PartialEq, Eq, Structural)]
pub enum Phase {
    /// Not invoked yet.
    Idle,
    /// The operation is running.
    Running,
    /// Waiting out the retry delay after a failure.
    Waiting,
    /// Finished: the operation ended or cancellation fired.
    Stopped,
}

/// What happened to the supervised operation.
#[derive(Clone, Copy, Debug, PartialEq, Eq, Structural)]
pub enum SupervisorEvent {
    /// The supervisor is asked to begin.
    Start,
    /// The operation failed with a transient error.
    Failed,
    /// The operation ended without error; it is not restarted.
    Completed,
    /// The retry delay has elapsed.
    DelayElapsed,
    /// The shutdown signal fired.
    Cancelled,
}

/// What the supervising loop does next.
#[derive(Clone, Copy, Debug, PartialEq, Eq, Structural)]
pub enum SupervisorAction {
    /// Invoke the operation (again), with the same parameters.
    Invoke,
    /// Wait this many milliseconds.
    Wait(u64),
    /// Stop supervising; nothing is invoked any more.
    Stop,
    /// The event changes nothing.
    Ignore,
}

/// Supervisor state: its phase and how many times the operation was invoked.
#[derive(Clone, Copy, Debug, PartialEq, Eq, Structural)]
pub struct Supervisor {
    pub phase: Phase,
    pub invocations: u64,
}

/// `x + 1`, or `x` at the top of `u64`.
pub open spec fn inc_sat(x: u64) -> u64 {
    if x < u64::MAX {
        (x + 1) as u64
    } else {
        x
    }
}

/// The transition of the supervisor on `ev`: the next state and the action.
pub open spec fn next(s: Supervisor, ev: SupervisorEvent) -> (Supervisor, SupervisorAction) {
    if s.phase == Phase::Stopped {
        (s, SupervisorAction::Stop)
    } else if ev == SupervisorEvent::Cancelled {
        (Supervisor { phase: Phase::Stopped, ..s }, SupervisorAction::Stop)
    } else if (s.phase == Phase::Idle && ev == SupervisorEvent::Start) || (s.phase == Phase::Waiting
        && ev == SupervisorEvent::DelayElapsed) {
        (
            Supervisor { phase: Phase::Running, invocations: inc_sat(s.invocations) },
            SupervisorAction::Invoke,
        )
    } else if s.phase == Phase::Running && ev == SupervisorEvent::Failed {
        (Supervisor { phase: Phase::Waiting, ..s }, SupervisorAction::Wait(RETRY_DELAY_MS))
    } else if s.phase == Phase::Running && ev == SupervisorEvent::Completed {
        (Supervisor { phase: Phase::Stopped, ..s }, SupervisorAction::Stop)
    } else {
        (s, SupervisorAction::Ignore)
    }
}

/// The state after the events `evs`, and the action taken on each.
pub open spec fn drive(s: Supervisor, evs: Seq<SupervisorEvent>) -> (Supervisor, Seq<
    SupervisorAction,
>)
    decreases evs.len(),
{
    if evs.len() == 0 {
        (s, Seq::empty())
    } else {
        let (s1, a) = next(s, evs[0]);
        let (s2, rest) = drive(s1, evs.drop_first());
        (s2, seq![a] + rest)
    }
}

/// `k` repetitions of `a, b`.
pub open spec fn repeat_pair<A>(a: A, b: A, k: nat) -> Seq<A>
    decreases k,
{
    if k == 0 {
        Seq::empty()
    } else {
        seq![a, b] + repeat_pair(a, b, (k - 1) as nat)
    }
}

/// The events of an operation that fails `k` times and then ends.
pub open spec fn fails_then_completes(k: nat) -> Seq<SupervisorEvent> {
    seq![SupervisorEvent::Start] + repeat_pair(
        SupervisorEvent::Failed,
        SupervisorEvent::DelayElapsed,
        k,
    ) + seq![SupervisorEvent::Completed]
}

impl Supervisor {
    /// A supervisor that has not invoked its operation yet.
    pub fn new() -> (r: Supervisor)
        ensures
            r == (Supervisor { phase: Phase::Idle, invocations: 0 }),
    {
        Supervisor { phase: Phase::Idle, invocations: 0 }
    }

    /// Decides what to do on `ev`.
    pub fn step(&mut self, ev: SupervisorEvent) -> (a: SupervisorAction)
        ensures
            (*final(self), a) == next(*old(self), ev),
    {
        if self.phase == Phase::Stopped {
            SupervisorAction::Stop
        } else if ev == SupervisorEvent::Cancelled {
            self.phase = Phase::Stopped;
            SupervisorAction::Stop
        } else if (self.phase == Phase::Idle && ev == SupervisorEvent::Start) || (self.phase
            == Phase::Waiting && ev == SupervisorEvent::DelayElapsed) {
            self.phase = Phase::Running;
            self.invocations = self.invocations.saturating_add(1);
            SupervisorAction::Invoke
        } else if self.phase == Phase::Running && ev == SupervisorEvent::Failed {
            self.phase = Phase::Waiting;
            SupervisorAction::Wait(RETRY_DELAY_MS)
        } else if self.phase == Phase::Running && ev == SupervisorEvent::Completed {
            self.phase = Phase::Stopped;
            SupervisorAction::Stop
        } else {
            SupervisorAction::Ignore
        }
    }
}

proof fn lemma_drive_retries(n: u64, k: nat)
    requires
        n + k <= u64::MAX,
    ensures
        drive(
            Supervisor { phase: Phase::Running, invocations: n },
            repeat_pair(SupervisorEvent::Failed, SupervisorEvent::DelayElapsed, k) + seq![
                SupervisorEvent::Completed,
            ],
        ) == (
            Supervisor { phase: Phase::Stopped, invocations: (n + k) as u64 },
            repeat_pair(SupervisorAction::Wait(RETRY_DELAY_MS), SupervisorAction::Invoke, k)
                + seq![SupervisorAction::Stop],
        ),
    decreases k,
{
    let s = Supervisor { phase: Phase::Running, invocations: n };
    if k == 0 {
        let evs = repeat_pair(SupervisorEvent::Failed, SupervisorEvent::DelayElapsed, 0)
            + seq![SupervisorEvent::Completed];
        assert(evs =~= seq![SupervisorEvent::Completed]);
        assert(evs.drop_first() =~= Seq::<SupervisorEvent>::empty());
        let acts = repeat_pair(SupervisorAction::Wait(RETRY_DELAY_MS), SupervisorAction::Invoke, 0)
            + seq![SupervisorAction::Stop];
        assert(acts =~= seq![SupervisorAction::Stop] + Seq::<SupervisorAction>::empty());
        assert(evs[0] == SupervisorEvent::Completed);
        let st = Supervisor { phase: Phase::Stopped, invocations: n };
        assert(next(s, SupervisorEvent::Completed) == (st, SupervisorAction::Stop));
        assert(drive(st, evs.drop_first()) == (st, Seq::<SupervisorAction>::empty()));
        assert(drive(s, evs) == (st, seq![SupervisorAction::Stop] + Seq::<SupervisorAction>::empty()));
    } else {
        let m = (k - 1) as nat;
        lemma_drive_retries((n + 1) as u64, m);
        let tail = repeat_pair(SupervisorEvent::Failed, SupervisorEvent::DelayElapsed, m) + seq![
            SupervisorEvent::Completed,
        ];
        let evs = repeat_pair(SupervisorEvent::Failed, SupervisorEvent::DelayElapsed, k) + seq![
            SupervisorEvent::Completed,
        ];
        assert(evs =~= seq![SupervisorEvent::Failed, SupervisorEvent::DelayElapsed] + tail);
        assert(evs[0] == SupervisorEvent::Failed);
        let w = Supervisor { phase: Phase::Waiting, invocations: n };
        assert(evs.drop_first() =~= seq![SupervisorEvent::DelayElapsed] + tail);
        assert(evs.drop_first()[0] == SupervisorEvent::DelayElapsed);
        assert(evs.drop_first().drop_first() =~= tail);
        let tail_acts = repeat_pair(
            SupervisorAction::Wait(RETRY_DELAY_MS),
            SupervisorAction::Invoke,
            m,
        ) + seq![SupervisorAction::Stop];
        let acts = repeat_pair(SupervisorAction::Wait(RETRY_DELAY_MS), SupervisorAction::Invoke, k)
            + seq![SupervisorAction::Stop];
        assert(acts =~= seq![SupervisorAction::Wait(RETRY_DELAY_MS)] + (seq![
            SupervisorAction::Invoke,
        ] + tail_acts));
        let r1 = Supervisor { phase: Phase::Running, invocations: (n + 1) as u64 };
        assert(next(s, SupervisorEvent::Failed) == (w, SupervisorAction::Wait(RETRY_DELAY_MS)));
        assert(next(w, SupervisorEvent::DelayElapsed) == (r1, SupervisorAction::Invoke));
        let ih = drive(r1, tail);
        assert(drive(w, evs.drop_first()) == (ih.0, seq![SupervisorAction::Invoke] + ih.1));
        assert(drive(s, evs) == (ih.0, seq![SupervisorAction::Wait(RETRY_DELAY_MS)] + (seq![
            SupervisorAction::Invoke,
        ] + ih.1)));
    }
}

/// An operation that fails `k` times and then ends is invoked exactly `k + 1`
/// times, and every invocation after the first follows a wait of the retry
/// delay: the actions are `Invoke`, then `k` times `Wait`, `Invoke`, then `Stop`.
pub proof fn lemma_fails_k_times(k: nat)
    requires
        k < u64::MAX,
    ensures
        drive(Supervisor { phase: Phase::Idle, invocations: 0 }, fails_then_completes(k)).0
            == (Supervisor { phase: Phase::Stopped, invocations: (k + 1) as u64 }),
        drive(Supervisor { phase: Phase::Idle, invocations: 0 }, fails_then_completes(k)).1
            == seq![SupervisorAction::Invoke] + repeat_pair(
            SupervisorAction::Wait(RETRY_DELAY_MS),
            SupervisorAction::Invoke,
            k,
        ) + seq![SupervisorAction::Stop],
{
    let evs = fails_then_completes(k);
    let tail = repeat_pair(SupervisorEvent::Failed, SupervisorEvent::DelayElapsed, k) + seq![
        SupervisorEvent::Completed,
    ];
    assert(evs =~= seq![SupervisorEvent::Start] + tail);
    assert(evs[0] == SupervisorEvent::Start);
    assert(evs.drop_first() =~= tail);
    lemma_drive_retries(1, k);
    let acts = repeat_pair(SupervisorAction::Wait(RETRY_DELAY_MS), SupervisorAction::Invoke, k)
        + seq![SupervisorAction::Stop];
    assert(seq![SupervisorAction::Invoke] + repeat_pair(
        SupervisorAction::Wait(RETRY_DELAY_MS),
        SupervisorAction::Invoke,
        k,
    ) + seq![SupervisorAction::Stop] =~= seq![SupervisorAction::Invoke] + acts);
}

/// Once cancellation has fired, whatever happens afterwards, the supervisor
/// only stops: it invokes nothing more and its state does not change.
pub proof fn lemma_cancel_is_final(s: Supervisor, evs: Seq<SupervisorEvent>)
    ensures
        drive(next(s, SupervisorEvent::Cancelled).0, evs).0 == next(
            s,
            SupervisorEvent::Cancelled,
        ).0,
        forall|i: int|
            0 <= i < evs.len() ==> #[trigger] drive(next(s, SupervisorEvent::Cancelled).0, evs).1[i]
                == SupervisorAction::Stop,
        drive(next(s, SupervisorEvent::Cancelled).0, evs).1.len() == evs.len(),
    decreases evs.len(),
{
    let c = next(s, SupervisorEvent::Cancelled).0;
    assert(c.phase == Phase::Stopped);
    lemma_stopped_stays(c, evs);
}

proof fn lemma_stopped_stays(c: Supervisor, evs: Seq<SupervisorEvent>)
    requires
        c.phase == Phase::Stopped,
    ensures
        drive(c, evs).0 == c,
        drive(c, evs).1.len() == evs.len(),
        forall|i: int| 0 <= i < evs.len() ==> #[trigger] drive(c, evs).1[i] == SupervisorAction::Stop,
    decreases evs.len(),
{
    if evs.len() > 0 {
        lemma_stopped_stays(c, evs.drop_first());
        let rest = drive(c, evs.drop_first()).1;
        assert forall|i: int| 0 <= i < evs.len() implies #[trigger] drive(c, evs).1[i]
            == SupervisorAction::Stop by {
            if i > 0 {
                assert(drive(c, evs).1[i] == rest[i - 1]);
            }
        }
    }
}

} // verus!
