//! The per-connection state machine.  One instance runs per physical
//! connection, driven by an external reactor: it alternates between claiming
//! a queued operation (handing it to the wire engine as an in-flight request)
//! and sleeping on a bounded timer when no work is available.  The dual
//! trigger — wakeup signal or timer — bounds dispatch latency to one sleep
//! interval even when a signal is lost.

use vstd::prelude::*;
use crate::queue::{CompletionSink, Message, Operation, Queue};

verus! {

/// How long a connection sleeps between queue re-checks when no wakeup
/// signal arrives.
pub const SLEEP_INTERVAL_MS: u64 = 2000;

/// Shared context handed to every machine of one pool.
pub struct Context;

/// The four states of a connection state machine.
#[derive(Clone, Copy, PartialEq, Eq, Structural, Debug)]
pub enum State {
    /// No in-flight request; about to look for work.
    Idle,
    /// A claimed operation is in flight on the wire.
    Requesting,
    /// No work was found; waiting for a wakeup signal or the sleep timer,
    /// whichever fires first.
    Sleeping,
    /// Terminal: the wire engine reported an unrecoverable error.
    Closed,
}

/// A claimed operation on its way into the wire engine, carrying the
/// completion sink so the engine can fulfil it when the response arrives.
pub struct ApiRequest {
    pub msg: Message,
    pub sink: Option<CompletionSink>,
}

impl ApiRequest {
    /// Wraps a claimed message and its completion sink as an in-flight
    /// request.
    pub fn for_msg(msg: Message, sink: Option<CompletionSink>) -> (r: ApiRequest)
        ensures
            r.msg == msg,
            r.sink == sink,
    {
        ApiRequest { msg, sink }
    }
}

/// What a state-machine step asks the reactor to do next: start an in-flight
/// request, or sleep until a deadline (woken early by any wakeup signal).
pub enum Task {
    Request(Fsm, ApiRequest),
    Sleep(Fsm, u64),
}

/// A state machine for managing one persistent connection to a node.  It owns
/// no queue state: the shared queue is passed in by the reactor driver at
/// each step.
pub struct Fsm {
    pub state: State,
}

/// What a step decides, stated over the queue model: the operation it claims,
/// or the deadline it sleeps until.
pub enum Decision {
    Claim(Operation),
    SleepUntil(int),
}

/// The idle-logic transition on queue contents `q` at time `now`: claim the
/// head if one is present, else sleep for one interval.  Every executable
/// step function is pinned to this model.
pub open spec fn spec_idle(q: Seq<Operation>, now: int) -> (State, Seq<Operation>, Decision) {
    if q.len() > 0 {
        (State::Requesting, q.drop_first(), Decision::Claim(q[0]))
    } else {
        (State::Sleeping, q, Decision::SleepUntil(now + SLEEP_INTERVAL_MS))
    }
}

/// The re-check transition taken on either trigger (wakeup signal or timer
/// firing) for a machine in state `s`: if the connection is idle, run the
/// idle logic; otherwise leave the state alone and arm the timer again.
pub open spec fn spec_recheck(s: State, conn_idle: bool, q: Seq<Operation>, now: int) -> (State, Seq<Operation>, Decision) {
    if conn_idle {
        spec_idle(q, now)
    } else {
        (s, q, Decision::SleepUntil(now + SLEEP_INTERVAL_MS))
    }
}

/// The executable task `t` together with final queue contents `q` carries out
/// the modelled transition `(s, q, d)`.
pub open spec fn step_matches(t: Task, qf: Seq<Operation>, m: (State, Seq<Operation>, Decision)) -> bool {
    &&& qf == m.1
    &&& match m.2 {
        Decision::Claim(op) => t matches Task::Request(f, r)
            && f.state == m.0 && r.msg == op.msg && r.sink == op.sink,
        Decision::SleepUntil(d) => t matches Task::Sleep(f, dl)
            && f.state == m.0 && dl == d,
    }
}

impl Fsm {
    /// Creates a machine for a freshly established connection; it starts in
    /// `Idle` and immediately looks for work.
    pub fn create() -> (m: Fsm)
        ensures
            m.state is Idle,
    {
        Fsm { state: State::Idle }
    }

    /// The idle logic: claim the queue head without blocking and hand it to
    /// the wire engine, or — if the queue is empty — arm the sleep timer as
    /// the liveness fallback for a missed wakeup.
    pub fn connection_idle(self, queue: &mut Queue, now: u64) -> (t: Task)
        requires
            !(self.state is Closed),
            now + SLEEP_INTERVAL_MS <= u64::MAX,
        ensures
            step_matches(t, final(queue)@, spec_idle(old(queue)@, now as int)),
    {
        if let Some(op) = queue.try_pop() {
            Task::Request(Fsm { state: State::Requesting }, ApiRequest::for_msg(op.msg, op.sink))
        } else {
            Task::Sleep(Fsm { state: State::Sleeping }, now + SLEEP_INTERVAL_MS)
        }
    }

    /// A wakeup signal arrived.  If the connection is idle the machine
    /// re-runs the idle logic at once; otherwise it keeps waiting.
    pub fn wakeup(self, conn_idle: bool, queue: &mut Queue, now: u64) -> (t: Task)
        requires
            !(self.state is Closed),
            now + SLEEP_INTERVAL_MS <= u64::MAX,
        ensures
            step_matches(t, final(queue)@, spec_recheck(self.state, conn_idle, old(queue)@, now as int)),
    {
        if conn_idle {
            self.connection_idle(queue, now)
        } else {
            Task::Sleep(self, now + SLEEP_INTERVAL_MS)
        }
    }

    /// The sleep timer fired.  Same re-check as a wakeup: the two triggers
    /// are interchangeable, so a lost signal only delays a claim by at most
    /// one sleep interval.
    pub fn timeout(self, conn_idle: bool, queue: &mut Queue, now: u64) -> (t: Task)
        requires
            !(self.state is Closed),
            now + SLEEP_INTERVAL_MS <= u64::MAX,
        ensures
            step_matches(t, final(queue)@, spec_recheck(self.state, conn_idle, old(queue)@, now as int)),
    {
        if conn_idle {
            self.connection_idle(queue, now)
        } else {
            Task::Sleep(self, now + SLEEP_INTERVAL_MS)
        }
    }

    /// The wire engine reported an unrecoverable protocol error: the machine
    /// enters its terminal state and never claims again.
    pub fn connection_error(self) -> (m: Fsm)
        ensures
            m.state is Closed,
    {
        Fsm { state: State::Closed }
    }
}

/// Liveness under a missed signal: a machine that finds the queue empty at
/// time `now` sleeps until exactly `now + SLEEP_INTERVAL_MS`; if an operation
/// arrives during the wait and no wakeup is ever delivered, the timer-driven
/// re-check still claims it — so a queued operation waits at most one sleep
/// interval beyond the time it was pushed.
pub proof fn lemma_missed_signal_liveness(q0: Seq<Operation>, op: Operation, now: int)
    requires
        q0.len() == 0,
    ensures
        ({
            let (s1, q1, d1) = spec_idle(q0, now);
            &&& s1 is Sleeping
            &&& d1 == Decision::SleepUntil(now + SLEEP_INTERVAL_MS)
            &&& {
                let (s2, q2, d2) = spec_recheck(s1, true, q1.push(op), now + SLEEP_INTERVAL_MS);
                s2 is Requesting && d2 == Decision::Claim(op) && q2 =~= Seq::<Operation>::empty()
            }
        }),
{
    let (s1, q1, d1) = spec_idle(q0, now);
    assert(q1.push(op)[0] == op);
    assert(q1.push(op).drop_first() =~= Seq::<Operation>::empty());
}

/// Idle-connection immediate dispatch: a wakeup delivered to an idle
/// connection while the queue is non-empty claims the head at once — the
/// machine does not sleep, so dispatch latency is bounded by signal delivery,
/// not by the sleep interval.
pub proof fn lemma_idle_immediate_dispatch(s: State, q: Seq<Operation>, now: int)
    requires
        q.len() > 0,
    ensures
        ({
            let (s2, q2, d2) = spec_recheck(s, true, q, now);
            s2 is Requesting && d2 == Decision::Claim(q[0]) && q2 == q.drop_first()
        }),
{
}

/// Completion delivery, pool side: an operation submitted with a completion
/// sink is claimed intact — the claim hands the wire engine the very sink
/// that was paired with the submitter's future, and the operation leaves the
/// queue.  Resolution itself travels over the one-shot channel, whose sender
/// is consumed by fulfilment, so the future is resolved at most once.
pub proof fn lemma_completion_delivery(q0: Seq<Operation>, op: Operation, now: int)
    requires
        q0.len() == 0,
        op.sink is Some,
    ensures
        ({
            let (s2, q2, d2) = spec_idle(q0.push(op), now);
            &&& s2 is Requesting
            &&& d2 == Decision::Claim(op)
            &&& d2 matches Decision::Claim(c) && c.sink == op.sink
            &&& q2 =~= Seq::<Operation>::empty()
        }),
{
    assert(q0.push(op)[0] == op);
    assert(q0.push(op).drop_first() =~= Seq::<Operation>::empty());
}

} // verus!
