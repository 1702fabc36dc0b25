//! A fixed-size worker-thread pool.
//!
//! A [`ThreadPool`] owns a bounded set of long-lived worker threads and an
//! unbounded intake queue of jobs.  Each successfully submitted job is run
//! exactly once on one of the workers; [`ThreadPool::shutdown`] closes the
//! intake and returns only after every submitted job has signalled its
//! completion.

pub mod engine;
pub mod http;
mod signal;
pub mod pool;
pub mod worker;

pub use pool::PoolCreationError;
pub use pool::ThreadPool;
pub use worker::WorkerEvent;
pub use worker::WorkerState;
