//! The asynchronous job handle: a scoped claim on one background worker.
//!
//! A handle is created once its worker has acknowledged the launch of the
//! background computation. It supports a non-blocking poll and a blocking
//! wait, and it must be released when its owner is done: release tears the
//! worker down over the retried transport, and releasing again does
//! nothing, so the worker receives exactly one shutdown call however often
//! the owner lets go.

use vstd::prelude::*;
use crate::cluster::{ClusterModel, LocalCluster};
use crate::job::Job;
use crate::retry::{attempts_from, pos_after};

verus! {

/// A claim on the single background worker computing one asynchronous job.
///
/// The worker is exclusively owned: exactly one handle refers to it, and
/// only that handle issues calls against it.
pub struct AsyncJobHandle<A> {
    /// The ledger index of the owned worker.
    pub wid: usize,
    /// Whether the owner has already let go, shutting the worker down.
    pub released: bool,
    /// The arguments the worker's background computation was launched with.
    pub args: Ghost<A>,
}

impl<A> AsyncJobHandle<A> {
    /// What holds of a handle between any two of its operations: its worker
    /// is in the ledger and, until release, is ready and either still runs
    /// the background computation of the handle's arguments or has stored
    /// one of its allowed results; after release the worker is gone.
    pub open spec fn valid<R, F: Fn(A) -> R>(self, m: ClusterModel<A, R>, f: F) -> bool {
        &&& self.wid < m.workers.len()
        &&& call_requires(f, (self.args@,))
        &&& if self.released {
            m.workers[self.wid as int].phase is Gone
        } else {
            &&& m.workers[self.wid as int].phase is Ready
            &&& match m.workers[self.wid as int].pending {
                Some(a) => a == self.args@ && m.workers[self.wid as int].store is None,
                None => (m.workers[self.wid as int].store matches Some(v) && call_ensures(
                    f,
                    (self.args@,),
                    v,
                )),
            }
        }
    }

    /// Polls the worker once, without blocking on the computation: one
    /// retried `TryGet` round trip, whose answer is the worker's stored
    /// cell — empty while the background computation still runs, and the
    /// same stored value on every poll thereafter.
    pub fn try_get<R: Copy, F: Fn(A) -> R>(
        &self,
        job: &Job<A, R, F>,
        cl: &mut LocalCluster<A, R>,
    ) -> (r: Option<R>)
        requires
            old(cl)@.wf(),
            self.valid(old(cl)@, job.f),
            !self.released,
        ensures
            final(cl)@.wf(),
            self.valid(final(cl)@, job.f),
            r == old(cl)@.workers[self.wid as int].store,
            (r matches Some(v) ==> call_ensures(job.f, (self.args@,), v)),
            final(cl)@ == (ClusterModel {
                fault_pos: pos_after(old(cl)@.faults, old(cl)@.fault_pos),
                last_attempts: attempts_from(old(cl)@.faults, old(cl)@.fault_pos),
                last_interval: job.settings.async_get_retry_interval_ms as nat,
                ..old(cl)@
            }),
    {
        cl.deliver_try_get(self.wid, job.settings.async_get_retry_interval_ms)
    }

    /// Waits for the worker's result: polls with retried `TryGet` round
    /// trips, letting the worker's background task run between polls, until
    /// the stored cell is filled — never returning before the worker has
    /// reached its stored-result state — and returns the stored value.
    pub fn await_get<R: Copy, F: Fn(A) -> R>(
        &self,
        job: &Job<A, R, F>,
        cl: &mut LocalCluster<A, R>,
    ) -> (r: R) where A: Copy
        requires
            old(cl)@.wf(),
            self.valid(old(cl)@, job.f),
            !self.released,
        ensures
            final(cl)@.wf(),
            self.valid(final(cl)@, job.f),
            call_ensures(job.f, (self.args@,), r),
            final(cl)@.workers[self.wid as int].store == Some(r),
            final(cl)@.workers.len() == old(cl)@.workers.len(),
            forall|i: int|
                0 <= i < old(cl)@.workers.len() && i != self.wid ==> final(cl)@.workers[i] == old(
                    cl,
                )@.workers[i],
            final(cl)@.workers[self.wid as int].node == old(cl)@.workers[self.wid as int].node,
            final(cl)@.workers[self.wid as int].shutdowns == old(cl)@.workers[self.wid
                as int].shutdowns,
            final(cl)@.local == old(cl)@.local,
            final(cl)@.remotes == old(cl)@.remotes,
            final(cl)@.faults == old(cl)@.faults,
    {
        loop
            invariant
                cl@.wf(),
                self.valid(cl@, job.f),
                !self.released,
                cl@.workers.len() == old(cl)@.workers.len(),
                forall|i: int|
                    0 <= i < cl@.workers.len() && i != self.wid ==> cl@.workers[i] == old(
                        cl,
                    )@.workers[i],
                cl@.workers[self.wid as int].node == old(cl)@.workers[self.wid as int].node,
                cl@.workers[self.wid as int].shutdowns == old(cl)@.workers[self.wid
                    as int].shutdowns,
                cl@.local == old(cl)@.local,
                cl@.remotes == old(cl)@.remotes,
                cl@.faults == old(cl)@.faults,
            decreases (if cl@.workers[self.wid as int].store is None {
                1int
            } else {
                0int
            }),
        {
            let got = cl.deliver_try_get(self.wid, job.settings.async_get_retry_interval_ms);
            match got {
                Some(v) => {
                    return v;
                },
                None => {
                    cl.advance_worker(self.wid, &job.f, job.settings.async_set_retry_interval_ms);
                },
            }
        }
    }

    /// Lets go of the worker. On the first release the worker is shut down
    /// over the retried transport, blocking until acknowledged; any later
    /// release does nothing at all. Either way the worker ends gone with
    /// exactly one received shutdown call: release on every exit path is
    /// safe and never doubles the teardown.
    pub fn release<R, F: Fn(A) -> R>(
        &mut self,
        job: &Job<A, R, F>,
        cl: &mut LocalCluster<A, R>,
    )
        requires
            old(cl)@.wf(),
            old(self).valid(old(cl)@, job.f),
        ensures
            final(cl)@.wf(),
            final(self).valid(final(cl)@, job.f),
            final(self).released,
            final(self).wid == old(self).wid,
            final(self).args == old(self).args,
            final(cl)@.workers[old(self).wid as int].phase is Gone,
            final(cl)@.workers[old(self).wid as int].shutdowns == 1,
            final(cl)@.workers.len() == old(cl)@.workers.len(),
            forall|i: int|
                0 <= i < old(cl)@.workers.len() && i != old(self).wid ==> final(cl)@.workers[i]
                    == old(cl)@.workers[i],
            final(cl)@.workers[old(self).wid as int].node == old(cl)@.workers[old(self).wid
                as int].node,
            final(cl)@.local == old(cl)@.local,
            final(cl)@.remotes == old(cl)@.remotes,
            final(cl)@.faults == old(cl)@.faults,
            (old(self).released ==> final(cl)@ == old(cl)@ && *final(self) == *old(self)),
    {
        if !self.released {
            cl.deliver_shutdown(self.wid, job.settings.shutdown_retry_interval_ms);
            self.released = true;
        }
    }
}

} // verus!
