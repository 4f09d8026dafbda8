//! A bridge from background computations to promises.
//!
//! Each submitted job runs on its own thread, or on a fixed worker pool, and
//! reports its result over a one-shot channel. Nothing is pushed: the caller
//! polls with [`AsyncRunner::try_resolve_all`], and each completed job's
//! value resolves the promise that was handed out for it.

use vstd::prelude::*;
use std::sync::mpsc::{Receiver, Sender};
use crate::promise::{Promise, SharedState, resolve_shared};

verus! {

#[verifier::external_type_specification]
#[verifier::external_body]
pub struct ExThreadPool(threadpool::ThreadPool);

#[verifier::external_type_specification]
#[verifier::external_body]
#[verifier::reject_recursive_types(T)]
pub struct ExSender<T>(Sender<T>);

#[verifier::external_type_specification]
#[verifier::external_body]
#[verifier::reject_recursive_types(T)]
pub struct ExReceiver<T>(Receiver<T>);

/// Relies on std::sync::mpsc::channel: a connected sending and receiving
/// endpoint pair; what the sender delivers is what the receiver observes.
#[verifier::external_body]
fn channel_endpoints<T>() -> (r: (Sender<T>, Receiver<T>)) {
    std::sync::mpsc::channel()
}

/// Relies on std::sync::mpsc::Sender::send: hands the value to the receiving
/// endpoint, reporting whether that endpoint still existed to take it.
#[verifier::external_body]
fn send_value<T>(tx: &Sender<T>, value: T) -> (r: bool) {
    match tx.send(value) {
        Ok(()) => true,
        Err(_) => false,
    }
}

/// Relies on std::sync::mpsc::Receiver::try_recv: a non-blocking poll that
/// yields a value if one has arrived and nothing otherwise, never waiting.
#[verifier::external_body]
fn try_recv_value<T>(rx: &Receiver<T>) -> (r: Option<T>) {
    match rx.try_recv() {
        Ok(v) => Some(v),
        Err(_) => None,
    }
}

/// Relies on threadpool::ThreadPool::new: a pool of that many worker
/// threads. The pool refuses zero workers by panicking, so zero is excluded
/// here.
#[verifier::external_body]
fn pool_new(threads: usize) -> (r: threadpool::ThreadPool)
    requires
        threads >= 1,
{
    threadpool::ThreadPool::new(threads)
}

/// Relies on threadpool::ThreadPool::execute: runs the job exactly once on
/// one of the pool's worker threads.
#[verifier::external_body]
fn pool_execute<F: FnOnce() + Send + 'static>(pool: &threadpool::ThreadPool, job: F)
    requires
        call_requires(job, ()),
{
    pool.execute(job)
}

/// A pending background computation that can be polled for completion.
trait Pollable {
    fn try_resolve(&mut self) -> bool;
}

/// A pending record: one polled background job, its concrete value type
/// erased.
struct Pending {
    job: Box<dyn Pollable>,
}

/// One submitted job: the receiving end of its result channel, paired with
/// the slot of the promise handed out for it.
#[verifier::reject_recursive_types(T)]
struct RunningJob<T> {
    receiver: Receiver<T>,
    target: SharedState<T>,
}

impl<T: 'static> Pollable for RunningJob<T> {
    /// Polls without blocking. When the result has arrived it resolves the
    /// job's promise and reports true, so the record can be discarded; a
    /// late resolution of a promise the caller resolved by hand is dropped.
    fn try_resolve(&mut self) -> (r: bool) {
        match try_recv_value(&self.receiver) {
            Some(v) => {
                let _ = resolve_shared(&self.target, v);
                true
            },
            None => false,
        }
    }
}

/// Owns the records of every submitted background job that has not yet
/// delivered its result, and the worker pool when one was asked for.
pub struct AsyncRunner {
    running: Vec<Pending>,
    pool: Option<threadpool::ThreadPool>,
}

impl AsyncRunner {
    /// How many submitted jobs have not yet been observed complete.
    pub closed spec fn pending(&self) -> nat {
        self.running@.len()
    }

    /// Whether jobs are dispatched to a worker pool rather than each to a
    /// fresh thread.
    pub closed spec fn pooled(&self) -> bool {
        self.pool is Some
    }

    /// A runner that gives every job its own dedicated background worker
    /// thread, torn down once the job has run.
    pub fn new() -> (r: AsyncRunner)
        ensures
            r.pending() == 0,
            !r.pooled(),
    {
        AsyncRunner { running: Vec::new(), pool: None }
    }

    /// A runner that dispatches every job to a fixed pool of that many
    /// worker threads; at least one is needed.
    pub fn new_pooled(threads: usize) -> (r: AsyncRunner)
        requires
            threads >= 1,
        ensures
            r.pending() == 0,
            r.pooled(),
    {
        AsyncRunner { running: Vec::new(), pool: Some(pool_new(threads)) }
    }

    /// Starts `run` in the background and returns, immediately and still
    /// unresolved, the promise of its result. The promise resolves during a
    /// later [`AsyncRunner::try_resolve_all`] call, once the job has
    /// delivered; the job's record is pending until then.
    pub fn exec_async<T: Send + 'static, F: Fn() -> T + Send + 'static>(
        &mut self,
        run: F,
    ) -> (r: Promise<T>)
        requires
            call_requires(run, ()),
        ensures
            final(self).pending() == old(self).pending() + 1,
            final(self).pooled() == old(self).pooled(),
    {
        let (tx, rx) = channel_endpoints::<T>();
        let job = move ||
            {
                let v = run();
                let _ = send_value(&tx, v);
            };
        match &self.pool {
            Some(pool) => pool_execute(pool, job),
            None => {
                let own = pool_new(1);
                pool_execute(&own, job);
            },
        }
        let promise = Promise::<T>::new();
        let record = RunningJob { receiver: rx, target: promise.slot().clone() };
        let ghost before_seq = self.running@;
        let entry = Pending { job: Box::new(record) };
        self.running.push(entry);
        proof {
            vstd::seq::axiom_seq_push_len(before_seq, entry);
        }
        promise
    }

    /// One non-blocking pass over the pending job records: each job whose
    /// result has arrived resolves its promise and is discarded, the others
    /// stay pending for the next pass. This is the only place background
    /// results reach their promises; nothing polls on its own.
    pub fn try_resolve_all(&mut self)
        ensures
            final(self).pending() <= old(self).pending(),
            final(self).pooled() == old(self).pooled(),
    {
        let mut jobs: Vec<Pending> = Vec::new();
        core::mem::swap(&mut self.running, &mut jobs);
        let ghost started = jobs@.len();
        let mut kept: Vec<Pending> = Vec::new();
        while jobs.len() > 0
            invariant
                kept@.len() + jobs@.len() <= started,
            decreases jobs@.len(),
        {
            let mut entry = jobs.remove(0);
            if !entry.job.try_resolve() {
                kept.push(entry);
            }
        }
        self.running = kept;
    }
}

} // verus!
