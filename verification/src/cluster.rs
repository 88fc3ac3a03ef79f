//! The in-process cluster: an index-addressed ledger of single-shot workers
//! behind a timeout-only transport.
//!
//! Every cross-worker exchange goes through the retry discipline of
//! [`crate::retry`]: a transport script says which attempts time out, so a
//! deterministic run can exercise the retry paths; an exhausted script
//! answers every attempt. The ledger records, for each worker, its node, its
//! lifecycle phase, its stored result cell, its launched background task,
//! and how many shutdown calls it received.

use vstd::prelude::*;
use crate::lifecycle::{lifecycle_step, LifecycleEvent, LifecyclePhase};
use crate::node::NodeId;
use crate::retry::{attempts_from, leading_timeouts, pos_after};
use crate::worker::{handle_get, handle_set, handle_try_get, Worker};

verus! {

/// The mathematical content of a [`LocalCluster`]: the membership snapshot,
/// the worker ledger, and the transport script with its cursor.
#[verifier::ext_equal]
pub ghost struct ClusterModel<A, R> {
    /// The caller's own node.
    pub local: NodeId,
    /// The remote cluster members, as last snapshotted.
    pub remotes: Seq<NodeId>,
    /// Every worker ever spawned here, in spawn order.
    pub workers: Seq<Worker<A, R>>,
    /// The transport script: `true` marks an attempt whose timeout elapses.
    pub faults: Seq<bool>,
    /// How much of the script has been consumed.
    pub fault_pos: nat,
    /// How many attempts the most recent retried call took.
    pub last_attempts: nat,
    /// The per-attempt timeout of the most recent retried call, in
    /// milliseconds.
    pub last_interval: nat,
}

impl<A, R> ClusterModel<A, R> {
    /// The cluster's invariant: the script cursor is inside the script, and
    /// every worker of the ledger satisfies the worker invariant — in
    /// particular, each is gone exactly when it has received its single
    /// shutdown call.
    pub open spec fn wf(self) -> bool {
        &&& self.fault_pos <= self.faults.len()
        &&& self.faults.len() < usize::MAX
        &&& forall|i: int|
            0 <= i < self.workers.len() ==> (#[trigger] self.workers[i]).wf()
    }
}

/// A cluster of single-shot workers driven from one coordinating context.
///
/// Workers are held in an index-addressed ledger; a worker identifier is its
/// index. The transport between coordinator and workers is unreliable and
/// timeout-only: each delivery consults the fault script, and a retried call
/// reissues its request until an attempt is answered.
pub struct LocalCluster<A, R> {
    local: NodeId,
    remotes: Vec<NodeId>,
    workers: Vec<Worker<A, R>>,
    faults: Vec<bool>,
    fault_pos: usize,
    last_attempts: usize,
    last_interval_ms: u64,
}

impl<A, R> View for LocalCluster<A, R> {
    type V = ClusterModel<A, R>;

    closed spec fn view(&self) -> ClusterModel<A, R> {
        ClusterModel {
            local: self.local,
            remotes: self.remotes@,
            workers: self.workers@,
            faults: self.faults@,
            fault_pos: self.fault_pos as nat,
            last_attempts: self.last_attempts as nat,
            last_interval: self.last_interval_ms as nat,
        }
    }
}

impl<A, R> LocalCluster<A, R> {
    /// A cluster with the given membership snapshot, an empty worker ledger,
    /// and a transport that answers every attempt.
    pub fn new(local: NodeId, remotes: Vec<NodeId>) -> (c: LocalCluster<A, R>)
        ensures
            c@ == (ClusterModel::<A, R> {
                local,
                remotes: remotes@,
                workers: Seq::empty(),
                faults: Seq::empty(),
                fault_pos: 0,
                last_attempts: 0,
                last_interval: 0,
            }),
            c@.wf(),
    {
        LocalCluster {
            local,
            remotes,
            workers: Vec::new(),
            faults: Vec::new(),
            fault_pos: 0,
            last_attempts: 0,
            last_interval_ms: 0,
        }
    }

    /// Replaces the transport script and rewinds its cursor; attempts past
    /// the script's end are answered.
    pub fn set_fault_script(&mut self, faults: Vec<bool>)
        requires
            old(self)@.wf(),
            faults@.len() < usize::MAX,
        ensures
            final(self)@.wf(),
            final(self)@ == (ClusterModel { faults: faults@, fault_pos: 0nat, ..old(self)@ }),
    {
        self.faults = faults;
        self.fault_pos = 0;
    }

    /// Replaces the remote-membership snapshot. The membership is queried
    /// at call time and never cached across invocations, so a change here
    /// is picked up by the next invocation.
    pub fn set_remote_nodes(&mut self, remotes: Vec<NodeId>)
        requires
            old(self)@.wf(),
        ensures
            final(self)@.wf(),
            final(self)@ == (ClusterModel { remotes: remotes@, ..old(self)@ }),
    {
        self.remotes = remotes;
    }

    /// The caller's own node.
    pub fn local_node(&self) -> (n: NodeId)
        ensures
            n == self@.local,
    {
        self.local
    }

    /// The current snapshot of remote cluster members.
    pub fn remote_nodes(&self) -> (v: &Vec<NodeId>)
        ensures
            v@ == self@.remotes,
    {
        &self.remotes
    }

    /// How many workers the ledger holds, spawned or gone.
    pub fn worker_count(&self) -> (n: usize)
        ensures
            n == self@.workers.len(),
    {
        self.workers.len()
    }

    /// How many attempts the most recent retried call took.
    pub fn last_attempts(&self) -> (n: usize)
        ensures
            n as nat == self@.last_attempts,
    {
        self.last_attempts
    }

    /// The per-attempt timeout the most recent retried call was issued
    /// with, in milliseconds.
    pub fn last_interval_ms(&self) -> (n: u64)
        ensures
            n as nat == self@.last_interval,
    {
        self.last_interval_ms
    }

    /// The lifecycle phase of worker `wid`.
    pub fn worker_phase(&self, wid: usize) -> (p: LifecyclePhase)
        requires
            wid < self@.workers.len(),
        ensures
            p == self@.workers[wid as int].phase,
    {
        self.workers[wid].phase
    }

    /// How many shutdown calls worker `wid` has received.
    pub fn worker_shutdowns(&self, wid: usize) -> (n: u64)
        requires
            wid < self@.workers.len(),
        ensures
            n == self@.workers[wid as int].shutdowns,
    {
        self.workers[wid].shutdowns
    }

    /// The node worker `wid` was spawned on.
    pub fn worker_node(&self, wid: usize) -> (n: NodeId)
        requires
            wid < self@.workers.len(),
        ensures
            n == self@.workers[wid as int].node,
    {
        self.workers[wid].node
    }

    /// One transport attempt: consults the fault script and reports whether
    /// the attempt's timeout elapsed.
    fn transport_attempt(&mut self) -> (timed_out: bool)
        requires
            old(self)@.wf(),
        ensures
            final(self)@.wf(),
            timed_out == (old(self)@.fault_pos < old(self)@.faults.len()
                && old(self)@.faults[old(self)@.fault_pos as int]),
            final(self)@ == (ClusterModel {
                fault_pos: if old(self)@.fault_pos < old(self)@.faults.len() {
                    (old(self)@.fault_pos + 1) as nat
                } else {
                    old(self)@.fault_pos
                },
                ..old(self)@
            }),
    {
        if self.fault_pos < self.faults.len() {
            let t = self.faults[self.fault_pos];
            self.fault_pos = self.fault_pos + 1;
            t
        } else {
            false
        }
    }

    /// Runs one retried call against the transport, each attempt bounded by
    /// `interval_ms`: attempts are reissued on every timeout,
    /// unconditionally, until one is answered. Returns how many attempts
    /// that took — every leading timeout of the script plus the answered
    /// attempt — and records it along with the interval.
    fn run_retries(&mut self, interval_ms: u64) -> (attempts: usize)
        requires
            old(self)@.wf(),
        ensures
            final(self)@.wf(),
            attempts as nat == attempts_from(old(self)@.faults, old(self)@.fault_pos),
            final(self)@ == (ClusterModel {
                fault_pos: pos_after(old(self)@.faults, old(self)@.fault_pos),
                last_attempts: attempts as nat,
                last_interval: interval_ms as nat,
                ..old(self)@
            }),
    {
        let ghost m0 = old(self)@;
        let mut attempts: usize = 0;
        loop
            invariant_except_break
                attempts as nat == self@.fault_pos - m0.fault_pos,
                leading_timeouts(m0.faults, m0.fault_pos) == attempts + leading_timeouts(
                    m0.faults,
                    self@.fault_pos,
                ),
            invariant
                self@.wf(),
                self@.local == m0.local,
                self@.remotes == m0.remotes,
                self@.workers == m0.workers,
                self@.faults == m0.faults,
                self@.last_attempts == m0.last_attempts,
                self@.last_interval == m0.last_interval,
                m0.fault_pos <= self@.fault_pos <= m0.faults.len(),
            ensures
                self@.wf(),
                self@.local == m0.local,
                self@.remotes == m0.remotes,
                self@.workers == m0.workers,
                self@.faults == m0.faults,
                self@.last_attempts == m0.last_attempts,
                self@.last_interval == m0.last_interval,
                self@.fault_pos == pos_after(m0.faults, m0.fault_pos),
                attempts as nat == attempts_from(m0.faults, m0.fault_pos),
            decreases m0.faults.len() - self@.fault_pos,
        {
            let ghost cur = self@.fault_pos;
            let timed_out = self.transport_attempt();
            attempts = attempts + 1;
            if !timed_out {
                proof {
                    assert(leading_timeouts(m0.faults, cur) == 0);
                    assert(leading_timeouts(m0.faults, m0.fault_pos) == cur - m0.fault_pos);
                }
                break;
            }
            proof {
                assert(leading_timeouts(m0.faults, cur) == 1 + leading_timeouts(
                    m0.faults,
                    cur + 1,
                ));
            }
        }
        self.last_attempts = attempts;
        self.last_interval_ms = interval_ms;
        proof {
            assert(self@ =~= (ClusterModel {
                fault_pos: pos_after(m0.faults, m0.fault_pos),
                last_attempts: attempts as nat,
                last_interval: interval_ms as nat,
                ..m0
            }));
        }
        attempts
    }

    /// Spawns a worker on `node` and performs its one-time initialization
    /// handshake, each attempt bounded by `interval_ms` and retried on every
    /// timeout; the worker joins the ledger ready, with an empty state.
    /// Returns its identifier.
    pub fn spawn_init(&mut self, node: NodeId, interval_ms: u64) -> (wid: usize)
        requires
            old(self)@.wf(),
        ensures
            final(self)@.wf(),
            wid == old(self)@.workers.len(),
            final(self)@ == (ClusterModel {
                workers: old(self)@.workers.push(Worker::fresh(node)),
                fault_pos: pos_after(old(self)@.faults, old(self)@.fault_pos),
                last_attempts: attempts_from(old(self)@.faults, old(self)@.fault_pos),
                last_interval: interval_ms as nat,
                ..old(self)@
            }),
    {
        let _attempts = self.run_retries(interval_ms);
        let spawning = lifecycle_step(
            LifecyclePhase::Unspawned,
            LifecycleEvent::SpawnRequested,
        ).unwrap();
        let ready = lifecycle_step(spawning, LifecycleEvent::SpawnAcknowledged).unwrap();
        let wid = self.workers.len();
        self.workers.push(
            Worker { node, phase: ready, store: None, pending: None, shutdowns: 0 },
        );
        wid
    }

    /// Delivers a synchronous `Get` request to ready worker `wid`, retrying
    /// on every timeout: the worker computes the job inline in its handler
    /// and the answer carries the result. The ledger is unchanged.
    pub fn deliver_get<F: Fn(A) -> R>(&mut self, wid: usize, f: &F, args: A, interval_ms: u64) -> (r: R)
        requires
            old(self)@.wf(),
            wid < old(self)@.workers.len(),
            old(self)@.workers[wid as int].phase is Ready,
            call_requires(*f, (args,)),
        ensures
            final(self)@.wf(),
            call_ensures(*f, (args,), r),
            final(self)@ == (ClusterModel {
                fault_pos: pos_after(old(self)@.faults, old(self)@.fault_pos),
                last_attempts: attempts_from(old(self)@.faults, old(self)@.fault_pos),
                last_interval: interval_ms as nat,
                ..old(self)@
            }),
    {
        let _attempts = self.run_retries(interval_ms);
        handle_get(f, args)
    }

    /// Delivers an `AsyncInit` request to ready worker `wid`, retrying on
    /// every timeout: the worker launches its background computation of
    /// `args` and acknowledges the launch without waiting for the result.
    pub fn deliver_async_init(&mut self, wid: usize, args: A, interval_ms: u64)
        requires
            old(self)@.wf(),
            wid < old(self)@.workers.len(),
            old(self)@.workers[wid as int].phase is Ready,
            old(self)@.workers[wid as int].store is None,
            old(self)@.workers[wid as int].pending is None,
        ensures
            final(self)@.wf(),
            final(self)@ == (ClusterModel {
                workers: old(self)@.workers.update(
                    wid as int,
                    (Worker { pending: Some(args), ..old(self)@.workers[wid as int] }),
                ),
                fault_pos: pos_after(old(self)@.faults, old(self)@.fault_pos),
                last_attempts: attempts_from(old(self)@.faults, old(self)@.fault_pos),
                last_interval: interval_ms as nat,
                ..old(self)@
            }),
    {
        let _attempts = self.run_retries(interval_ms);
        let w = &mut self.workers[wid];
        w.pending = Some(args);
    }

    /// Delivers a non-blocking `TryGet` request to ready worker `wid`,
    /// retrying on every timeout for transport reliability only: the answer
    /// is the content of the worker's stored cell, empty while the
    /// background computation has not stored its result, and the same value
    /// on every poll thereafter. The ledger is unchanged.
    pub fn deliver_try_get(&mut self, wid: usize, interval_ms: u64) -> (r: Option<R>) where R: Copy
        requires
            old(self)@.wf(),
            wid < old(self)@.workers.len(),
            old(self)@.workers[wid as int].phase is Ready,
        ensures
            final(self)@.wf(),
            r == old(self)@.workers[wid as int].store,
            final(self)@ == (ClusterModel {
                fault_pos: pos_after(old(self)@.faults, old(self)@.fault_pos),
                last_attempts: attempts_from(old(self)@.faults, old(self)@.fault_pos),
                last_interval: interval_ms as nat,
                ..old(self)@
            }),
    {
        let _attempts = self.run_retries(interval_ms);
        handle_try_get(&self.workers[wid].store)
    }

    /// Lets worker `wid`'s launched background task run to completion, if it
    /// has one: the task computes the job on its launch arguments and calls
    /// back into the worker with a `Set` request — itself retried on every
    /// timeout — storing the result in the worker's cell. Without a launched
    /// task nothing happens.
    pub fn advance_worker<F: Fn(A) -> R>(&mut self, wid: usize, f: &F, interval_ms: u64) where A: Copy
        requires
            old(self)@.wf(),
            wid < old(self)@.workers.len(),
            (old(self)@.workers[wid as int].pending matches Some(a) ==> call_requires(
                *f,
                (a,),
            )),
        ensures
            final(self)@.wf(),
            (old(self)@.workers[wid as int].pending is None ==> final(self)@ == old(self)@),
            (old(self)@.workers[wid as int].pending matches Some(a) ==> {
                &&& final(self)@.workers[wid as int].store matches Some(v) && call_ensures(
                    *f,
                    (a,),
                    v,
                )
                &&& final(self)@ == (ClusterModel {
                    workers: old(self)@.workers.update(
                        wid as int,
                        (Worker {
                            pending: None,
                            store: final(self)@.workers[wid as int].store,
                            ..old(self)@.workers[wid as int]
                        }),
                    ),
                    fault_pos: pos_after(old(self)@.faults, old(self)@.fault_pos),
                    last_attempts: attempts_from(old(self)@.faults, old(self)@.fault_pos),
                    last_interval: interval_ms as nat,
                    ..old(self)@
                })
            }),
    {
        if self.workers[wid].pending.is_some() {
            let _attempts = self.run_retries(interval_ms);
            let w = &mut self.workers[wid];
            let a = w.pending.unwrap();
            let v = handle_get(f, a);
            handle_set(&mut w.store, v);
            w.pending = None;
        }
    }

    /// Delivers a shutdown request to ready worker `wid`, retrying on every
    /// timeout until acknowledged: the worker is destroyed — its cell and
    /// any unfinished computation discarded, regardless of progress — and
    /// the ledger records its one received shutdown call.
    pub fn deliver_shutdown(&mut self, wid: usize, interval_ms: u64)
        requires
            old(self)@.wf(),
            wid < old(self)@.workers.len(),
            old(self)@.workers[wid as int].phase is Ready,
        ensures
            final(self)@.wf(),
            final(self)@ == (ClusterModel {
                workers: old(self)@.workers.update(
                    wid as int,
                    Worker::spent(old(self)@.workers[wid as int].node),
                ),
                fault_pos: pos_after(old(self)@.faults, old(self)@.fault_pos),
                last_attempts: attempts_from(old(self)@.faults, old(self)@.fault_pos),
                last_interval: interval_ms as nat,
                ..old(self)@
            }),
            final(self)@.workers[wid as int].shutdowns == 1,
    {
        let _attempts = self.run_retries(interval_ms);
        let shutting_down = lifecycle_step(
            self.workers[wid].phase,
            LifecycleEvent::ShutdownRequested,
        ).unwrap();
        let gone = lifecycle_step(shutting_down, LifecycleEvent::ShutdownAcknowledged).unwrap();
        let w = &mut self.workers[wid];
        w.phase = gone;
        w.store = None;
        w.pending = None;
        w.shutdowns = w.shutdowns + 1;
    }
}

} // verus!
