//! The pool: construction, job submission, and the shutdown protocol.

use vstd::prelude::*;
use crate::engine::new_engine;
use crate::engine::spawn_on;
use crate::signal::clone_sender;
use crate::signal::completion_channel;
use crate::signal::recv_done;
use crate::signal::send_done;

verus! {

/// Error returned when a pool of zero workers is requested, or when the
/// operating system refuses to start the worker threads.  In either case
/// nothing was allocated and no thread was started.
#[derive(Debug)]
pub struct PoolCreationError;

/// A fixed-size worker-thread pool.
///
/// A pool of size `n >= 1` owns `n` long-lived worker threads fed by one
/// unbounded intake queue.  [`ThreadPool::execute`] enqueues a job and
/// returns at once; some idle worker dequeues it and runs it exactly once.
/// [`ThreadPool::shutdown`] closes the intake and returns only after every
/// submitted job has signalled its completion and every worker has
/// announced its exit.
pub struct ThreadPool {
    engine: Option<crate::engine::Engine>,
    done_send: std::sync::mpsc::Sender<()>,
    done_recv: std::sync::mpsc::Receiver<()>,
    exit_recv: std::sync::mpsc::Receiver<()>,
    workers: usize,
    pending: usize,
}

impl ThreadPool {
    /// Number of worker threads the pool was built with.
    pub closed spec fn spec_size(&self) -> nat {
        self.workers as nat
    }

    /// Whether the intake still accepts jobs (it does until shutdown begins).
    pub closed spec fn spec_open(&self) -> bool {
        self.engine is Some
    }

    /// Jobs submitted whose completion signal has not yet been awaited.
    pub closed spec fn spec_pending(&self) -> nat {
        self.pending as nat
    }

    /// A valid pool never has zero workers, and only an open pool holds
    /// outstanding jobs.
    pub open spec fn wf(&self) -> bool {
        &&& self.spec_size() >= 1
        &&& !self.spec_open() ==> self.spec_pending() == 0
    }

    /// Builds a pool of exactly `size` workers, or reports why none was built.
    ///
    /// `size == 0` is rejected outright, before any resource exists.  For
    /// `size >= 1` the engine is asked for the threads; the engine alone can
    /// still refuse (the operating system would not start a thread), so
    /// success is not promised here, while [`ThreadPool::from_engine`] pins
    /// down the result for each engine outcome.
    pub fn build(size: usize) -> (r: Result<ThreadPool, PoolCreationError>)
        ensures
            size == 0 ==> r is Err,
            r matches Ok(p) ==> size >= 1 && p.wf() && p.spec_open() && p.spec_size() == size
                && p.spec_pending() == 0,
    {
        if size == 0 {
            Err(PoolCreationError)
        } else {
            let (exit_send, exit_recv) = completion_channel();
            Self::from_engine(size, new_engine(size, exit_send), exit_recv)
        }
    }

    /// Finishes construction from an engine outcome: a started engine of
    /// `size` workers becomes an open, empty pool; a refused engine becomes
    /// a `PoolCreationError`.  `worker_exits` is the channel the engine's
    /// workers announce their exit on; teardown drains it.
    pub fn from_engine(
        size: usize,
        engine: Option<crate::engine::Engine>,
        worker_exits: std::sync::mpsc::Receiver<()>,
    ) -> (r: Result<ThreadPool, PoolCreationError>)
        requires
            size >= 1,
        ensures
            r is Ok <==> engine is Some,
            r matches Ok(p) ==> p.wf() && p.spec_open() && p.spec_size() == size
                && p.spec_pending() == 0,
    {
        match engine {
            Some(e) => {
                let (done_send, done_recv) = completion_channel();
                Ok(
                    ThreadPool {
                        engine: Some(e),
                        done_send,
                        done_recv,
                        exit_recv: worker_exits,
                        workers: size,
                        pending: 0,
                    },
                )
            },
            None => Err(PoolCreationError),
        }
    }

    /// Submits a job to the intake queue and returns without waiting for it.
    ///
    /// An open pool runs the job exactly once on some worker and counts it as
    /// pending until [`ThreadPool::shutdown`] has awaited its completion.  On
    /// a pool whose shutdown has begun the submission is silently dropped and
    /// the pool is left unchanged.
    ///
    /// The pool does not isolate job faults: a job that panics instead of
    /// returning ends the process.
    pub fn execute<F: FnOnce() + Send + 'static>(&mut self, f: F)
        requires
            f.requires(()),
            old(self).spec_pending() < usize::MAX,
        ensures
            old(self).wf() ==> final(self).wf(),
            final(self).spec_size() == old(self).spec_size(),
            final(self).spec_open() == old(self).spec_open(),
            old(self).spec_open() ==> final(self).spec_pending() == old(self).spec_pending() + 1,
            !old(self).spec_open() ==> *final(self) == *old(self),
    {
        match &self.engine {
            Some(engine) => {
                let done = clone_sender(&self.done_send);
                spawn_on(
                    engine,
                    (move ||
                        {
                            f();
                            send_done(&done);
                        }),
                );
                self.pending = self.pending + 1;
            },
            None => {},
        }
    }

    /// Tears the pool down: signal, then wait, in three steps.
    ///
    /// First the engine is discarded, which closes the intake for good; jobs
    /// already submitted are still delivered and run.  Then one completion
    /// signal is awaited for each pending job, so every submitted job has
    /// run to its end before this goes on.  Last, one exit signal is awaited
    /// for each worker; a worker sends it as the very last thing it does
    /// after leaving its work loop, so no worker still runs pool work once
    /// this returns.  Shutting an already closed pool down again is a no-op.
    pub fn shutdown(&mut self)
        ensures
            old(self).wf() ==> final(self).wf(),
            !final(self).spec_open(),
            final(self).spec_pending() == 0,
            final(self).spec_size() == old(self).spec_size(),
        opens_invariants none
        no_unwind
    {
        match &self.engine {
            None => {
                self.pending = 0;
                return;
            },
            Some(_) => {},
        }
        self.engine = None;
        let mut remaining: usize = self.pending;
        while remaining > 0
            invariant
                self.pending >= remaining,
            decreases remaining,
        {
            recv_done(&self.done_recv);
            remaining = remaining - 1;
        }
        self.pending = 0;
        let mut workers_left: usize = self.workers;
        while workers_left > 0
            invariant
                self.workers >= workers_left,
            decreases workers_left,
        {
            recv_done(&self.exit_recv);
            workers_left = workers_left - 1;
        }
    }

    /// Number of worker threads of this pool.
    pub fn num_workers(&self) -> (n: usize)
        ensures
            n == self.spec_size(),
    {
        self.workers
    }

    /// Whether the pool still accepts jobs.
    pub fn is_open(&self) -> (b: bool)
        ensures
            b == self.spec_open(),
    {
        self.engine.is_some()
    }

    /// Number of submitted jobs whose completion has not yet been awaited.
    pub fn pending_jobs(&self) -> (n: usize)
        ensures
            n == self.spec_pending(),
    {
        self.pending
    }
}

impl Drop for ThreadPool {
    /// Discarding a pool runs the full shutdown protocol: close the
    /// intake, then wait for every submitted job.
    fn drop(&mut self)
        opens_invariants none
        no_unwind
    {
        self.shutdown();
    }
}

} // verus!
