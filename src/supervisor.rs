//! The supervisor's restart loop as a state machine: each event that the
//! surrounding process observes (a spawn, a failure report, a finished wait)
//! moves it to its next phase and names the one action to perform next.

use vstd::prelude::*;
use crate::ping::FailureKind;

verus! {

/// Seconds to wait between the end of one attempt and the spawn of the next.
pub const BACKOFF_SECS: u64 = 5;

/// Where the supervisor stands in the current attempt.
#[derive(Clone, Copy, Debug, PartialEq, Eq, Structural)]
pub enum Phase {
    /// Before the first attempt.
    Idle,
    /// The server is being spawned.
    Spawning,
    /// The server runs and both probes watch it.
    Running,
    /// The attempt is marked failed and the server is being killed.
    Killing,
    /// The server is being waited upon.
    Waiting,
    /// The probes are being joined.
    Joining,
    /// The backoff delay before the next attempt.
    Backoff,
    /// The supervisor has returned with this exit code.
    Exited(u8),
}

/// What the surrounding process reports to the supervisor.
#[derive(Clone, Copy, Debug, PartialEq, Eq, Structural)]
pub enum Event {
    /// An iteration may begin (at start, or when the backoff has elapsed);
    /// `canceled` is the cancellation latch as read now.
    Tick { canceled: bool },
    /// The spawn of the server succeeded (`ok`) or failed.
    Spawned { ok: bool },
    /// A probe reported a failure.
    Failure(FailureKind),
    /// The operator asked for shutdown.
    Canceled,
    /// The termination signal was sent to the server.
    Killed,
    /// Waiting on the server returned, successfully (`ok`) or with an error.
    Waited { ok: bool },
    /// Both probes were joined; `canceled` is the cancellation latch as read now.
    Joined { canceled: bool },
}

/// What the surrounding process is to do next.
#[derive(Clone, Copy, Debug, PartialEq, Eq, Structural)]
pub enum Action {
    /// Spawn the server with its outputs captured.
    Spawn,
    /// Hand the server's output to the log probe, start both probes and wait for
    /// a failure report or cancellation.
    StartProbes,
    /// Mark the attempt failed, then send the server a termination signal.
    Kill,
    /// Wait on the server.
    Wait,
    /// Join both probes.
    Join,
    /// Sleep this many seconds, then report a tick.
    Sleep { secs: u64 },
    /// Return with this exit code.
    Exit { code: u8 },
    /// The event does not apply in the current phase: nothing to do.
    Ignore,
}

/// The supervisor's transition: the next phase and the action that goes with it.
pub open spec fn next(p: Phase, e: Event) -> (Phase, Action) {
    match (p, e) {
        (Phase::Idle, Event::Tick { canceled }) | (Phase::Backoff, Event::Tick { canceled }) => {
            if canceled {
                (Phase::Exited(0), Action::Exit { code: 0 })
            } else {
                (Phase::Spawning, Action::Spawn)
            }
        },
        (Phase::Spawning, Event::Spawned { ok }) => {
            if ok {
                (Phase::Running, Action::StartProbes)
            } else {
                (Phase::Exited(1), Action::Exit { code: 1 })
            }
        },
        (Phase::Running, Event::Failure(_)) | (Phase::Running, Event::Canceled) => (
            Phase::Killing,
            Action::Kill,
        ),
        (Phase::Killing, Event::Killed) => (Phase::Waiting, Action::Wait),
        (Phase::Waiting, Event::Waited { .. }) => (Phase::Joining, Action::Join),
        (Phase::Joining, Event::Joined { canceled }) => {
            if canceled {
                (Phase::Exited(0), Action::Exit { code: 0 })
            } else {
                (Phase::Backoff, Action::Sleep { secs: BACKOFF_SECS })
            }
        },
        _ => (p, Action::Ignore),
    }
}

/// The final phase and the actions named when the supervisor starts in `p` and
/// receives `events` in order.
pub open spec fn run(p: Phase, events: Seq<Event>) -> (Phase, Seq<Action>)
    decreases events.len(),
{
    if events.len() == 0 {
        (p, Seq::empty())
    } else {
        let (q, a) = next(p, events[0]);
        let (r, rest) = run(q, events.drop_first());
        (r, seq![a] + rest)
    }
}

/// How many times `a` occurs in `s`.
pub open spec fn count(s: Seq<Action>, a: Action) -> nat
    decreases s.len(),
{
    if s.len() == 0 {
        0
    } else {
        (if s[0] == a { 1nat } else { 0nat }) + count(s.drop_first(), a)
    }
}

/// 1 when `b` holds, else 0.
pub open spec fn ind(b: bool) -> nat {
    if b { 1 } else { 0 }
}

/// The supervisor of the restart loop.
#[derive(Clone, Copy, Debug)]
pub struct Supervisor {
    phase: Phase,
}

impl Supervisor {
    /// The current phase.
    pub closed spec fn spec_phase(&self) -> Phase {
        self.phase
    }

    /// A supervisor before its first attempt.
    pub fn new() -> (r: Supervisor)
        ensures
            r.spec_phase() == Phase::Idle,
    {
        Supervisor { phase: Phase::Idle }
    }

    /// The current phase.
    pub fn phase(&self) -> (r: Phase)
        ensures
            r == self.spec_phase(),
    {
        self.phase
    }

    /// Takes one event and names the next action.
    pub fn step(&mut self, e: Event) -> (a: Action)
        ensures
            (final(self).spec_phase(), a) == next(old(self).spec_phase(), e),
    {
        let (q, a) = match (self.phase, e) {
            (Phase::Idle, Event::Tick { canceled }) | (Phase::Backoff, Event::Tick { canceled }) => {
                if canceled {
                    (Phase::Exited(0), Action::Exit { code: 0 })
                } else {
                    (Phase::Spawning, Action::Spawn)
                }
            },
            (Phase::Spawning, Event::Spawned { ok }) => {
                if ok {
                    (Phase::Running, Action::StartProbes)
                } else {
                    (Phase::Exited(1), Action::Exit { code: 1 })
                }
            },
            (Phase::Running, Event::Failure(_)) | (Phase::Running, Event::Canceled) => (
                Phase::Killing,
                Action::Kill,
            ),
            (Phase::Killing, Event::Killed) => (Phase::Waiting, Action::Wait),
            (Phase::Waiting, Event::Waited { .. }) => (Phase::Joining, Action::Join),
            (Phase::Joining, Event::Joined { canceled }) => {
                if canceled {
                    (Phase::Exited(0), Action::Exit { code: 0 })
                } else {
                    (Phase::Backoff, Action::Sleep { secs: BACKOFF_SECS })
                }
            },
            (p, _) => (p, Action::Ignore),
        };
        self.phase = q;
        a
    }

    /// Runs this supervisor through `events` in order and returns the action
    /// named at each.
    pub fn replay(&mut self, events: &Vec<Event>) -> (r: Vec<Action>)
        ensures
            (final(self).spec_phase(), r@) == run(old(self).spec_phase(), events@),
    {
        let mut out: Vec<Action> = Vec::new();
        let mut i: usize = 0;
        assert(events@.subrange(0, events@.len() as int) =~= events@);
        assert(out@ + run(self.phase, events@).1 =~= run(self.phase, events@).1);
        while i < events.len()
            invariant
                i <= events@.len(),
                run(self.phase, events@.subrange(i as int, events@.len() as int)).0 == run(
                    old(self).phase,
                    events@,
                ).0,
                out@ + run(self.phase, events@.subrange(i as int, events@.len() as int)).1 == run(
                    old(self).phase,
                    events@,
                ).1,
            decreases events@.len() - i,
        {
            let ghost rest = events@.subrange(i as int, events@.len() as int);
            let ghost before = self.phase;
            let ghost out_before = out@;
            let a = self.step(events[i]);
            assert(rest[0] == events@[i as int]);
            assert(rest.drop_first() =~= events@.subrange(i + 1, events@.len() as int));
            let ghost tail = run(self.phase, rest.drop_first()).1;
            assert(run(before, rest).1 == seq![a] + tail);
            out.push(a);
            assert(out@ + tail =~= out_before + (seq![a] + tail));
            i = i + 1;
        }
        assert(events@.subrange(i as int, events@.len() as int) =~= Seq::<Event>::empty());
        assert(out@ =~= out@ + Seq::<Action>::empty());
        out
    }
}

/// Counting over a sequence that starts with one known action.
proof fn lemma_count_cons(a: Action, rest: Seq<Action>, x: Action)
    ensures
        count(seq![a] + rest, x) == (if a == x { 1nat } else { 0nat }) + count(rest, x),
{
    assert((seq![a] + rest).drop_first() =~= rest);
}

/// Along any run, each stage of an attempt is entered as often as the stage
/// before it was, up to the attempt that stands in it at either end.
proof fn lemma_counts(p: Phase, events: Seq<Event>)
    ensures
        count(run(p, events).1, Action::Kill) + ind(run(p, events).0 is Running)
            == count(run(p, events).1, Action::StartProbes) + ind(p is Running),
        count(run(p, events).1, Action::Wait) + ind(run(p, events).0 is Killing)
            == count(run(p, events).1, Action::Kill) + ind(p is Killing),
        count(run(p, events).1, Action::Join) + ind(run(p, events).0 is Waiting)
            == count(run(p, events).1, Action::Wait) + ind(p is Waiting),
        count(run(p, events).1, Action::StartProbes) + ind(run(p, events).0 is Spawning) + ind(
            run(p, events).0 == Phase::Exited(1),
        ) == count(run(p, events).1, Action::Spawn) + ind(p is Spawning) + ind(p == Phase::Exited(1)),
    decreases events.len(),
{
    if events.len() > 0 {
        let (q, a) = next(p, events[0]);
        let rest = run(q, events.drop_first()).1;
        lemma_counts(q, events.drop_first());
        lemma_count_cons(a, rest, Action::Kill);
        lemma_count_cons(a, rest, Action::StartProbes);
        lemma_count_cons(a, rest, Action::Wait);
        lemma_count_cons(a, rest, Action::Join);
        lemma_count_cons(a, rest, Action::Spawn);
    }
}

/// Whatever events arrive (any number of failure reports included), every
/// attempt whose probes were started is killed exactly once: the kills so far
/// equal the started attempts, less the one still running.
pub proof fn law_single_kill(events: Seq<Event>)
    ensures
        count(run(Phase::Idle, events).1, Action::Kill) + ind(run(Phase::Idle, events).0 is Running)
            == count(run(Phase::Idle, events).1, Action::StartProbes),
{
    lemma_counts(Phase::Idle, events);
}

/// Once the supervisor has returned, every server it started has been killed,
/// waited upon, and its probes joined.
pub proof fn law_no_leaked_process(events: Seq<Event>)
    requires
        run(Phase::Idle, events).0 is Exited,
    ensures
        count(run(Phase::Idle, events).1, Action::Kill) == count(run(Phase::Idle, events).1, Action::StartProbes),
        count(run(Phase::Idle, events).1, Action::Wait) == count(run(Phase::Idle, events).1, Action::StartProbes),
        count(run(Phase::Idle, events).1, Action::Join) == count(run(Phase::Idle, events).1, Action::StartProbes),
{
    lemma_counts(Phase::Idle, events);
}

/// The event was observed with the cancellation latch set: a tick or a join
/// that reads it reads true.
pub open spec fn after_cancel(e: Event) -> bool {
    match e {
        Event::Tick { canceled } => canceled,
        Event::Joined { canceled } => canceled,
        _ => true,
    }
}

/// Once cancellation is latched, no new attempt is started and no backoff is
/// slept: from any phase but a spawn already under way, the run names neither
/// a spawn nor a sleep.
pub proof fn law_no_attempt_after_cancel(p: Phase, events: Seq<Event>)
    requires
        !(p is Spawning),
        forall|i: int| 0 <= i < events.len() ==> after_cancel(#[trigger] events[i]),
    ensures
        !(run(p, events).0 is Spawning),
        forall|i: int|
            0 <= i < run(p, events).1.len() ==> !(#[trigger] run(p, events).1[i] is Spawn) && !(run(
                p,
                events,
            ).1[i] is Sleep),
    decreases events.len(),
{
    if events.len() > 0 {
        let (q, a) = next(p, events[0]);
        let tail = events.drop_first();
        assert forall|i: int| 0 <= i < tail.len() implies after_cancel(#[trigger] tail[i]) by {
            assert(tail[i] == events[i + 1]);
        }
        assert(after_cancel(events[0]));
        law_no_attempt_after_cancel(q, tail);
        let rest = run(q, tail).1;
        assert forall|i: int| 0 <= i < run(p, events).1.len() implies !(#[trigger] run(p, events).1[i] is Spawn)
            && !(run(p, events).1[i] is Sleep) by {
            if i > 0 {
                assert(run(p, events).1[i] == rest[i - 1]);
            }
        }
    }
}

/// A cancellation while the server runs, followed by the reports of the kill,
/// of the wait (which returned `ok` or an error) and of the join.
pub open spec fn cancel_events(ok: bool) -> Seq<Event> {
    seq![Event::Canceled, Event::Killed, Event::Waited { ok }, Event::Joined { canceled: true }]
}

/// A cancellation while the server runs ends the supervisor once the server is
/// killed and waited upon and the probes are joined, whatever the wait returned.
pub proof fn law_cancel_returns(ok: bool)
    ensures
        run(Phase::Running, cancel_events(ok)) == (
            Phase::Exited(0),
            seq![Action::Kill, Action::Wait, Action::Join, (Action::Exit { code: 0 })],
        ),
{
    let evs = cancel_events(ok);
    let e1 = evs.drop_first();
    let e2 = e1.drop_first();
    let e3 = e2.drop_first();
    assert(e1 =~= seq![Event::Killed, Event::Waited { ok }, Event::Joined { canceled: true }]);
    assert(e2 =~= seq![Event::Waited { ok }, Event::Joined { canceled: true }]);
    assert(e3 =~= seq![Event::Joined { canceled: true }]);
    assert(e3.drop_first() =~= Seq::<Event>::empty());
    let exit = Action::Exit { code: 0 };
    assert(run(Phase::Exited(0), e3.drop_first()) == (Phase::Exited(0), Seq::<Action>::empty()));
    assert(run(Phase::Joining, e3).1 =~= seq![exit]);
    assert(run(Phase::Joining, e3).0 == Phase::Exited(0));
    assert(run(Phase::Waiting, e2).1 =~= seq![Action::Join, exit]);
    assert(run(Phase::Killing, e1).1 =~= seq![Action::Wait, Action::Join, exit]);
    assert(run(Phase::Running, evs).1 =~= seq![Action::Kill, Action::Wait, Action::Join, exit]);
    assert(run(Phase::Running, evs).0 == Phase::Exited(0));
}

/// Between the end of one attempt and the spawn of the next lies a sleep of the
/// backoff delay: a spawn is named only before the first attempt or from the
/// backoff phase, which is entered only by naming that sleep once the probes
/// are joined, and left only by a spawn or by returning.
pub proof fn law_backoff(p: Phase, e: Event)
    ensures
        next(p, e).1 is Spawn ==> (p is Idle || p is Backoff),
        next(p, e).0 is Backoff && !(p is Backoff) ==> (p is Joining && next(p, e).1 == (Action::Sleep {
            secs: BACKOFF_SECS,
        })),
        p is Backoff && !(next(p, e).0 is Backoff) ==> (next(p, e).1 is Spawn || next(p, e).1 == (Action::Exit {
            code: 0,
        })),
        next(p, e).0 is Idle ==> (p is Idle),
        BACKOFF_SECS >= 5,
{
}

} // verus!
