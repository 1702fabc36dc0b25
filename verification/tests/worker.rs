use std::sync::Arc;
use std::sync::Mutex;

use hello_webserver::worker::run_next;
use hello_webserver::worker::step;
use hello_webserver::WorkerEvent;
use hello_webserver::WorkerState;

#[test]
fn waiting_worker_runs_on_dequeue() {
    assert_eq!(step(WorkerState::Waiting, WorkerEvent::Dequeued), WorkerState::Running);
}

#[test]
fn waiting_worker_stops_on_closed_intake() {
    assert_eq!(step(WorkerState::Waiting, WorkerEvent::Closed), WorkerState::Stopped);
}

#[test]
fn running_worker_waits_again_after_its_job() {
    assert_eq!(step(WorkerState::Running, WorkerEvent::JobFinished), WorkerState::Waiting);
}

#[test]
fn running_worker_ignores_intake_events() {
    assert_eq!(step(WorkerState::Running, WorkerEvent::Dequeued), WorkerState::Running);
    assert_eq!(step(WorkerState::Running, WorkerEvent::Closed), WorkerState::Running);
}

#[test]
fn stopped_worker_never_leaves_stopped() {
    assert_eq!(step(WorkerState::Stopped, WorkerEvent::Dequeued), WorkerState::Stopped);
    assert_eq!(step(WorkerState::Stopped, WorkerEvent::JobFinished), WorkerState::Stopped);
    assert_eq!(step(WorkerState::Stopped, WorkerEvent::Closed), WorkerState::Stopped);
}

#[test]
fn run_next_invokes_a_dequeued_job_once() {
    let counter = Arc::new(Mutex::new(0usize));
    let cloned = Arc::clone(&counter);
    let stopped = run_next(Some(move || {
        let mut count = cloned.lock().unwrap();
        *count += 1;
    }));
    assert!(!stopped);
    assert_eq!(*counter.lock().unwrap(), 1);
}

#[test]
fn run_next_stops_on_closed_intake() {
    let stopped = run_next(None::<fn()>);
    assert!(stopped);
}
