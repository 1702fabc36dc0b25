use std::sync::Arc;
use std::sync::Barrier;
use std::sync::Condvar;
use std::sync::Mutex;

use hello_webserver::PoolCreationError;
use hello_webserver::ThreadPool;

#[test]
fn should_build_thread_pool() {
    let pool = ThreadPool::build(1);

    assert!(pool.is_ok());
}

#[test]
fn should_err_when_size_is_0() {
    let pool = ThreadPool::build(0);

    assert!(pool.is_err());
}

#[test]
fn should_run_job_on_pool() {
    let closed = Arc::new((Mutex::new(0i32), Condvar::new()));
    let cloned = Arc::clone(&closed);
    let job = move || {
        let (lock, cvar) = &*cloned;
        let mut num = lock.lock().unwrap();
        *num += 1;
        cvar.notify_one();
    };

    let mut pool = ThreadPool::build(1).unwrap();

    pool.execute(job);

    let (lock, cvar) = &*closed;
    let mut num = lock.lock().unwrap();
    while *num != 1 {
        num = cvar.wait(num).unwrap();
    }

    assert_eq!(*num, 1);
}

#[test]
fn builds_every_positive_size() {
    let sizes: [usize; 4] = [1, 2, 3, 8];
    for size in sizes {
        let pool = ThreadPool::build(size).unwrap();
        assert_eq!(pool.num_workers(), size);
        assert!(pool.is_open());
        assert_eq!(pool.pending_jobs(), 0);
    }
}

#[test]
fn pool_runs_as_many_jobs_at_once_as_it_has_workers() {
    // Three jobs that all meet at one barrier can only finish if three
    // worker threads are live at the same time; the shutdown below would
    // otherwise never return.
    let size: usize = 3;
    let barrier = Arc::new(Barrier::new(size));
    let mut pool = ThreadPool::build(size).unwrap();
    for _ in 0..size {
        let barrier = Arc::clone(&barrier);
        pool.execute(move || {
            barrier.wait();
        });
    }
    pool.shutdown();
    assert_eq!(pool.num_workers(), size);
}

#[test]
fn zero_size_gives_pool_creation_error() {
    let pool = ThreadPool::build(0);
    assert!(matches!(pool, Err(PoolCreationError)));
}

#[test]
fn refused_engine_gives_pool_creation_error() {
    let (_exit_send, exit_recv) = std::sync::mpsc::channel();
    let pool = ThreadPool::from_engine(1, None, exit_recv);
    assert!(pool.is_err());
}

#[test]
fn more_jobs_than_workers_all_complete() {
    let submitted: usize = 8;
    let counter = Arc::new(Mutex::new(0usize));
    let mut pool = ThreadPool::build(2).unwrap();
    for _ in 0..submitted {
        let counter = Arc::clone(&counter);
        pool.execute(move || {
            let mut count = counter.lock().unwrap();
            *count += 1;
        });
    }
    assert_eq!(pool.pending_jobs(), submitted);
    pool.shutdown();
    assert_eq!(*counter.lock().unwrap(), submitted);
}

#[test]
fn shutdown_waits_for_every_job() {
    let submitted: usize = 5;
    let counter = Arc::new(Mutex::new(0usize));
    let mut pool = ThreadPool::build(3).unwrap();
    for _ in 0..submitted {
        let counter = Arc::clone(&counter);
        pool.execute(move || {
            let mut count = counter.lock().unwrap();
            *count += 1;
        });
    }
    pool.shutdown();
    assert_eq!(*counter.lock().unwrap(), submitted);
    assert_eq!(pool.pending_jobs(), 0);
    assert!(!pool.is_open());
}

#[test]
fn shutdown_twice_is_harmless() {
    let mut pool = ThreadPool::build(2).unwrap();
    pool.shutdown();
    pool.shutdown();
    assert!(!pool.is_open());
    assert_eq!(pool.num_workers(), 2);
}

#[test]
fn execute_after_shutdown_is_dropped() {
    let counter = Arc::new(Mutex::new(0usize));
    let mut pool = ThreadPool::build(1).unwrap();
    pool.shutdown();
    let cloned = Arc::clone(&counter);
    pool.execute(move || {
        let mut count = cloned.lock().unwrap();
        *count += 1;
    });
    assert_eq!(pool.pending_jobs(), 0);
    pool.shutdown();
    assert_eq!(*counter.lock().unwrap(), 0);
}

#[test]
fn single_worker_runs_jobs_in_submission_order() {
    let order = Arc::new(Mutex::new(Vec::new()));
    let mut pool = ThreadPool::build(1).unwrap();
    for tag in 1u8..=4u8 {
        let order = Arc::clone(&order);
        pool.execute(move || {
            order.lock().unwrap().push(tag);
        });
    }
    pool.shutdown();
    assert_eq!(*order.lock().unwrap(), vec![1u8, 2, 3, 4]);
}
