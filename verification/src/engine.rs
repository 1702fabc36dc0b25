//! Trusted boundary to the rayon thread-pool engine.
//!
//! The engine supplies the long-lived worker threads and the blocking
//! worker loops, which Verus cannot check itself; everything the pool
//! decides around the engine is verified in [`crate::pool`].

use vstd::prelude::*;

verus! {

/// The running engine: a `rayon::ThreadPool`, opaque to Verus.  Dropping it
/// closes the intake for good; workers finish the jobs already accepted by
/// the engine and then exit.
#[verifier::external_body]
pub struct Engine {
    inner: rayon::ThreadPool,
}

/// Relies on `rayon::ThreadPoolBuilder`: `num_threads(size)` with `size >= 1`
/// configures a pool of exactly `size` worker threads (rayon reduces a size
/// beyond its documented `max_num_threads` cap, far above any practical
/// pool), and `build` either starts those threads and returns the pool or
/// reports that the operating system refused to start a thread.
/// `num_threads(0)` would instead pick a default size, so the zero case is
/// excluded here.  `exit_handler` registers a callback that each worker
/// thread runs exactly once, as the last thing it does after leaving its
/// work loop for good: the handler installed here sends one unit on
/// `exited`, so one unit arrives per worker that winds down.
#[verifier::external_body]
pub(crate) fn new_engine(size: usize, exited: std::sync::mpsc::Sender<()>) -> (r: Option<Engine>)
    requires
        size >= 1,
{
    let built = rayon::ThreadPoolBuilder::new().num_threads(size).exit_handler(
        move |_index| {
            let _ = exited.send(());
        },
    ).build();
    match built {
        Ok(inner) => Some(Engine { inner }),
        Err(_) => None,
    }
}

/// Relies on `rayon::ThreadPool::spawn_fifo`: enqueues `f` to be run exactly
/// once on some worker thread of `engine`, in FIFO order relative to other
/// `spawn_fifo` calls from the same thread.  The call itself returns without
/// waiting for `f` to run.
#[verifier::external_body]
pub(crate) fn spawn_on<F: FnOnce() + Send + 'static>(engine: &Engine, f: F)
    requires
        f.requires(()),
{
    engine.inner.spawn_fifo(f);
}

} // verus!
