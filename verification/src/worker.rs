//! The worker life cycle, as a verified state machine.
//!
//! Each worker thread runs the same protocol: block for the next job on the
//! shared intake, run it to its end, and stop for good once the intake has
//! closed.  The transition relation of that protocol is stated and checked
//! here, together with the step a worker performs after each wake-up.

use vstd::prelude::*;

verus! {

/// The three states a worker can be in.
///
/// A worker starts in `Waiting`, is `Running` exactly while a dequeued job
/// executes on its thread, and is `Stopped` once it has observed the closed
/// intake.  `Stopped` is terminal.
#[derive(Debug, Clone, Copy, PartialEq, Eq, Structural)]
pub enum WorkerState {
    Waiting,
    Running,
    Stopped,
}

/// The events a worker can observe.
///
/// `Dequeued`: the blocking receive handed this worker a job.
/// `JobFinished`: the job running on this worker returned.
/// `Closed`: the blocking receive reported the intake closed and drained.
#[derive(Debug, Clone, Copy, PartialEq, Eq, Structural)]
pub enum WorkerEvent {
    Dequeued,
    JobFinished,
    Closed,
}

/// The transition relation of the worker protocol.
///
/// A waiting worker starts running on a dequeued job and stops on the
/// closed-intake signal; a running worker returns to waiting when its job
/// finishes.  Every other pairing leaves the state unchanged: a busy worker
/// observes no intake event, and no event leaves `Stopped`.
pub open spec fn spec_step(s: WorkerState, e: WorkerEvent) -> WorkerState {
    match (s, e) {
        (WorkerState::Waiting, WorkerEvent::Dequeued) => WorkerState::Running,
        (WorkerState::Waiting, WorkerEvent::Closed) => WorkerState::Stopped,
        (WorkerState::Running, WorkerEvent::JobFinished) => WorkerState::Waiting,
        (_, _) => s,
    }
}

/// Executable form of the transition relation.
pub fn step(s: WorkerState, e: WorkerEvent) -> (r: WorkerState)
    ensures
        r == spec_step(s, e),
{
    match (s, e) {
        (WorkerState::Waiting, WorkerEvent::Dequeued) => WorkerState::Running,
        (WorkerState::Waiting, WorkerEvent::Closed) => WorkerState::Stopped,
        (WorkerState::Running, WorkerEvent::JobFinished) => WorkerState::Waiting,
        (other, _) => other,
    }
}

/// `Stopped` is terminal: no event leaves it.
pub proof fn lemma_stopped_is_terminal(e: WorkerEvent)
    ensures
        spec_step(WorkerState::Stopped, e) == WorkerState::Stopped,
{
}

/// A worker stops only from `Waiting`, and only on the closed-intake
/// signal: no job hand-off and no job completion ever stops a worker.
pub proof fn lemma_stop_needs_closed_intake(s: WorkerState, e: WorkerEvent)
    requires
        s != WorkerState::Stopped,
        spec_step(s, e) == WorkerState::Stopped,
    ensures
        s == WorkerState::Waiting && e == WorkerEvent::Closed,
{
}

/// A worker runs only on a job handed to it while it was waiting.
pub proof fn lemma_run_needs_dequeue(s: WorkerState, e: WorkerEvent)
    requires
        s != WorkerState::Running,
        spec_step(s, e) == WorkerState::Running,
    ensures
        s == WorkerState::Waiting && e == WorkerEvent::Dequeued,
{
}

/// The state a worker reaches from `start` after observing `events`, one
/// transition per event, oldest event first.
pub open spec fn spec_run_from(start: WorkerState, events: Seq<WorkerEvent>) -> WorkerState
    decreases events.len(),
{
    if events.len() == 0 {
        start
    } else {
        spec_step(spec_run_from(start, events.drop_last()), events.last())
    }
}

/// The state a worker reaches after observing `events`, starting in
/// `Waiting` as every worker does on thread start.
pub open spec fn spec_run(events: Seq<WorkerEvent>) -> WorkerState {
    spec_run_from(WorkerState::Waiting, events)
}

/// `Stopped` absorbs every event sequence: a worker that has stopped stays
/// stopped, whatever else it observes.
pub proof fn lemma_stopped_absorbs(events: Seq<WorkerEvent>)
    ensures
        spec_run_from(WorkerState::Stopped, events) == WorkerState::Stopped,
    decreases events.len(),
{
    if events.len() > 0 {
        lemma_stopped_absorbs(events.drop_last());
    }
}

/// A worker that has not observed the closed intake has not stopped: jobs
/// handed out and jobs finished never cost the pool a worker.
pub proof fn lemma_alive_until_closed(events: Seq<WorkerEvent>)
    requires
        !events.contains(WorkerEvent::Closed),
    ensures
        spec_run(events) != WorkerState::Stopped,
    decreases events.len(),
{
    if events.len() > 0 {
        assert forall|x: WorkerEvent| events.drop_last().contains(x) implies events.contains(
            x,
        ) by {
            let i = choose|i: int|
                0 <= i < events.drop_last().len() && events.drop_last()[i] == x;
            assert(events[i] == x);
        }
        lemma_alive_until_closed(events.drop_last());
        assert(events.last() != WorkerEvent::Closed) by {
            assert(events[events.len() - 1] == events.last());
        }
    }
}

/// One worker iteration, after the blocking receive has resolved.
///
/// A dequeued job is run to its end on the calling thread, exactly once (it
/// is consumed by the call, and its postcondition holds on return), and the
/// worker keeps going; the closed-intake outcome tells the worker to stop.
pub fn run_next<F: FnOnce()>(next: Option<F>) -> (stopped: bool)
    requires
        next matches Some(f) ==> f.requires(()),
    ensures
        stopped <==> next is None,
        next matches Some(f) ==> f.ensures((), ()),
{
    match next {
        Some(job) => {
            job();
            false
        },
        None => true,
    }
}

} // verus!
