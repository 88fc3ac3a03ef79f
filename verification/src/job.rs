//! A job definition and its invocation paths.
//!
//! A [`Job`] pairs a computation function with the per-call-kind retry
//! intervals, the worker resource limits, and the fanout mode. Every
//! invocation spawns a fresh single-shot worker on a node picked by the
//! requested policy, drives it over the retried transport, and tears it
//! down exactly once.

use vstd::prelude::*;
use crate::cluster::LocalCluster;
use crate::config::{default_job_settings, FanoutMode, JobSettings};
use crate::node::{select_node, InvokeError, SelectPolicy};
use crate::retry::{attempts_from, pos_after_calls};
use crate::handle::AsyncJobHandle;
use crate::worker::Worker;

verus! {

/// How many fanout slots have not collected a result yet.
spec fn unresolved<R>(results: Seq<Option<R>>) -> nat
    decreases results.len(),
{
    if results.len() == 0 {
        0
    } else {
        unresolved(results.drop_last()) + (if results.last() is None {
            1nat
        } else {
            0nat
        })
    }
}

/// Collecting a result resolves exactly one slot.
proof fn lemma_unresolved_update<R>(results: Seq<Option<R>>, j: int, v: R)
    requires
        0 <= j < results.len(),
        results[j] is None,
    ensures
        unresolved(results.update(j, Some(v))) + 1 == unresolved(results),
    decreases results.len(),
{
    let upd = results.update(j, Some(v));
    if j == results.len() - 1 {
        assert(upd.drop_last() =~= results.drop_last());
    } else {
        lemma_unresolved_update(results.drop_last(), j, v);
        assert(upd.drop_last() =~= results.drop_last().update(j, Some(v)));
        assert(upd.last() == results.last());
    }
}

/// A slot without a result keeps the count positive.
proof fn lemma_unresolved_positive<R>(results: Seq<Option<R>>, j: int)
    requires
        0 <= j < results.len(),
        results[j] is None,
    ensures
        unresolved(results) >= 1,
    decreases results.len(),
{
    if j < results.len() - 1 {
        lemma_unresolved_positive(results.drop_last(), j);
    }
}

/// While slots are unresolved, one of them can be pointed at.
proof fn lemma_unresolved_witness<R>(results: Seq<Option<R>>)
    requires
        unresolved(results) > 0,
    ensures
        exists|j: int| 0 <= j < results.len() && results[j] is None,
    decreases results.len(),
{
    if results.last() is None {
        assert(results[results.len() - 1] is None);
    } else {
        lemma_unresolved_witness(results.drop_last());
        let j = choose|j: int|
            0 <= j < results.len() - 1 && results.drop_last()[j] is None;
        assert(results[j] is None);
    }
}

/// What the fanout coordinator knows of one slot between sweeps: either the
/// slot has collected one of the computation's allowed results for its item
/// and its worker is gone after its one shutdown call, or the worker is
/// still ready and either runs the item's background computation or holds
/// an allowed result waiting to be collected.
spec fn fanout_slot_ok<A, R, F: Fn(A) -> R>(w: Worker<A, R>, res: Option<R>, item: A, f: F) -> bool {
    match res {
        Some(v) => {
            &&& call_ensures(f, (item,), v)
            &&& w.phase is Gone
            &&& w.shutdowns == 1
            &&& w.store is None
            &&& w.pending is None
        },
        None => {
            &&& w.phase is Ready
            &&& w.shutdowns == 0
            &&& match w.pending {
                Some(a) => a == item && w.store is None,
                None => (w.store matches Some(v) && call_ensures(f, (item,), v)),
            }
        },
    }
}

/// One job definition: the computation to run in each spawned worker,
/// together with the settings every invocation of it uses.
#[verifier::reject_recursive_types(R)]
pub struct Job<A, R, F> where F: Fn(A) -> R {
    /// The computation a worker performs on the job's arguments.
    pub f: F,
    /// Retry intervals, worker resource limits, and fanout mode.
    pub settings: JobSettings,
    pub _types: core::marker::PhantomData<(A, R)>,
}

impl<A, R, F: Fn(A) -> R> Job<A, R, F> {
    /// Registers a computation as a job with the default settings.
    pub fn new(f: F) -> (j: Job<A, R, F>)
        ensures
            j.f == f,
            j.settings == default_job_settings(),
            j.settings.wf(),
    {
        Job { f, settings: JobSettings::default(), _types: core::marker::PhantomData }
    }

    /// Registers a computation as a job with the given settings.
    pub fn with_settings(f: F, settings: JobSettings) -> (j: Job<A, R, F>)
        ensures
            j.f == f,
            j.settings == settings,
    {
        Job { f, settings, _types: core::marker::PhantomData }
    }

    /// Invokes the job synchronously on the caller's own node: spawn and
    /// initialize a worker there, fetch the result computed inline in the
    /// worker's handler, shut the worker down, and return the result — three
    /// retried calls, blocking the caller throughout.
    ///
    /// The worker joins the ledger and ends gone after exactly one shutdown
    /// call; the result is one the computation allows for these arguments.
    pub fn invoke_local_sync(&self, cl: &mut LocalCluster<A, R>, args: A) -> (r: R)
        requires
            old(cl)@.wf(),
            call_requires(self.f, (args,)),
        ensures
            final(cl)@.wf(),
            call_ensures(self.f, (args,), r),
            final(cl)@.workers == old(cl)@.workers.push(
                Worker::<A, R>::spent(old(cl)@.local),
            ),
            final(cl)@.local == old(cl)@.local,
            final(cl)@.remotes == old(cl)@.remotes,
            final(cl)@.faults == old(cl)@.faults,
            final(cl)@.fault_pos == pos_after_calls(old(cl)@.faults, old(cl)@.fault_pos, 3),
            final(cl)@.last_attempts == attempts_from(
                old(cl)@.faults,
                pos_after_calls(old(cl)@.faults, old(cl)@.fault_pos, 2),
            ),
    {
        let node = cl.local_node();
        let wid = cl.spawn_init(node, self.settings.init_retry_interval_ms);
        let r = cl.deliver_get(wid, &self.f, args, self.settings.sync_retry_interval_ms);
        cl.deliver_shutdown(wid, self.settings.shutdown_retry_interval_ms);
        proof {
            reveal_with_fuel(pos_after_calls, 4);
            assert(cl@.workers =~= old(cl)@.workers.push(Worker::<A, R>::spent(node)));
        }
        r
    }

    /// Invokes the job synchronously on a uniformly chosen remote cluster
    /// member, exactly as [`Job::invoke_local_sync`] does locally. With no
    /// remote members the call fails deterministically, touching nothing,
    /// rather than falling back to the local node.
    pub fn invoke_remote_sync(&self, cl: &mut LocalCluster<A, R>, args: A) -> (r: Result<
        R,
        InvokeError,
    >)
        requires
            old(cl)@.wf(),
            call_requires(self.f, (args,)),
        ensures
            final(cl)@.wf(),
            (r is Err) <==> old(cl)@.remotes.len() == 0,
            (r is Err ==> r == Err::<R, InvokeError>(InvokeError::NoRemoteNodes) && final(cl)@
                == old(cl)@),
            (r matches Ok(v) ==> {
                &&& call_ensures(self.f, (args,), v)
                &&& final(cl)@.workers.len() == old(cl)@.workers.len() + 1
                &&& old(cl)@.remotes.contains(
                    final(cl)@.workers[old(cl)@.workers.len() as int].node,
                )
                &&& final(cl)@.workers == old(cl)@.workers.push(
                    Worker::<A, R>::spent(final(cl)@.workers[old(cl)@.workers.len() as int].node),
                )
                &&& final(cl)@.local == old(cl)@.local
                &&& final(cl)@.remotes == old(cl)@.remotes
                &&& final(cl)@.faults == old(cl)@.faults
                &&& final(cl)@.fault_pos == pos_after_calls(
                    old(cl)@.faults,
                    old(cl)@.fault_pos,
                    3,
                )
            }),
    {
        let local = cl.local_node();
        let node = match select_node(SelectPolicy::RandomRemote, local, cl.remote_nodes()) {
            Ok(n) => n,
            Err(e) => {
                return Err(e);
            },
        };
        let wid = cl.spawn_init(node, self.settings.init_retry_interval_ms);
        let r = cl.deliver_get(wid, &self.f, args, self.settings.sync_retry_interval_ms);
        cl.deliver_shutdown(wid, self.settings.shutdown_retry_interval_ms);
        proof {
            reveal_with_fuel(pos_after_calls, 4);
            assert(cl@.workers =~= old(cl)@.workers.push(Worker::<A, R>::spent(node)));
        }
        Ok(r)
    }

    /// Invokes the job asynchronously on the caller's own node: spawn and
    /// initialize a worker there, have it launch the background computation
    /// — two retried calls, blocking only until the launch is acknowledged,
    /// not until the computation finishes — and return the handle that owns
    /// the worker.
    pub fn invoke_local_async(&self, cl: &mut LocalCluster<A, R>, args: A) -> (h: AsyncJobHandle<
        A,
    >)
        requires
            old(cl)@.wf(),
            call_requires(self.f, (args,)),
        ensures
            final(cl)@.wf(),
            h.valid(final(cl)@, self.f),
            !h.released,
            h.wid == old(cl)@.workers.len(),
            h.args@ == args,
            final(cl)@.workers == old(cl)@.workers.push(
                Worker::<A, R>::launched(old(cl)@.local, args),
            ),
            final(cl)@.local == old(cl)@.local,
            final(cl)@.remotes == old(cl)@.remotes,
            final(cl)@.faults == old(cl)@.faults,
            final(cl)@.fault_pos == pos_after_calls(old(cl)@.faults, old(cl)@.fault_pos, 2),
    {
        let node = cl.local_node();
        let wid = cl.spawn_init(node, self.settings.init_retry_interval_ms);
        cl.deliver_async_init(wid, args, self.settings.async_init_retry_interval_ms);
        proof {
            reveal_with_fuel(pos_after_calls, 3);
            assert(cl@.workers =~= old(cl)@.workers.push(Worker::<A, R>::launched(node, args)));
        }
        AsyncJobHandle { wid, released: false, args: Ghost(args) }
    }

    /// Invokes the job asynchronously on a uniformly chosen remote cluster
    /// member, exactly as [`Job::invoke_local_async`] does locally. With no
    /// remote members the call fails deterministically, touching nothing,
    /// rather than falling back to the local node.
    pub fn invoke_remote_async(&self, cl: &mut LocalCluster<A, R>, args: A) -> (r: Result<
        AsyncJobHandle<A>,
        InvokeError,
    >)
        requires
            old(cl)@.wf(),
            call_requires(self.f, (args,)),
        ensures
            final(cl)@.wf(),
            (r is Err) <==> old(cl)@.remotes.len() == 0,
            (r is Err ==> r == Err::<AsyncJobHandle<A>, InvokeError>(InvokeError::NoRemoteNodes)
                && final(cl)@ == old(cl)@),
            (r matches Ok(h) ==> {
                &&& h.valid(final(cl)@, self.f)
                &&& !h.released
                &&& h.wid == old(cl)@.workers.len()
                &&& h.args@ == args
                &&& old(cl)@.remotes.contains(final(cl)@.workers[h.wid as int].node)
                &&& final(cl)@.workers == old(cl)@.workers.push(
                    Worker::<A, R>::launched(final(cl)@.workers[h.wid as int].node, args),
                )
                &&& final(cl)@.local == old(cl)@.local
                &&& final(cl)@.remotes == old(cl)@.remotes
                &&& final(cl)@.faults == old(cl)@.faults
            }),
    {
        let local = cl.local_node();
        let node = match select_node(SelectPolicy::RandomRemote, local, cl.remote_nodes()) {
            Ok(n) => n,
            Err(e) => {
                return Err(e);
            },
        };
        let wid = cl.spawn_init(node, self.settings.init_retry_interval_ms);
        cl.deliver_async_init(wid, args, self.settings.async_init_retry_interval_ms);
        proof {
            assert(cl@.workers =~= old(cl)@.workers.push(Worker::<A, R>::launched(node, args)));
        }
        Ok(AsyncJobHandle { wid, released: false, args: Ghost(args) })
    }

    /// Fans the job out across the cluster and collects every result, in
    /// original input order.
    ///
    /// For each item, in input order, a worker is spawned on a node picked
    /// by the configured fanout mode — member `k mod n` for item `k` under
    /// round-robin, a uniformly chosen member otherwise — and its background
    /// computation is launched. A reconciliation loop then sweeps every
    /// unresolved slot with a `TryGet`, never blocking on any one worker's
    /// completion: a slot that answers a stored value is marked complete and
    /// its worker shut down immediately, a slot that answers nothing is
    /// revisited on the next sweep, and the outstanding computations run
    /// between sweeps, until every slot is complete.
    ///
    /// Each item's slot ends with a result the computation allows for that
    /// item, and each of the spawned workers ends gone after exactly one
    /// shutdown call. With items to place but no remote members the call
    /// fails deterministically, touching nothing.
    #[verifier::loop_isolation(false)]
    pub fn invoke_remote_fanout(&self, cl: &mut LocalCluster<A, R>, items: &Vec<A>) -> (r: Result<
        Vec<R>,
        InvokeError,
    >) where A: Copy, R: Copy
        requires
            old(cl)@.wf(),
            forall|i: int|
                0 <= i < items@.len() ==> call_requires(self.f, (#[trigger] items@[i],)),
        ensures
            final(cl)@.wf(),
            (r is Err) <==> (old(cl)@.remotes.len() == 0 && items@.len() > 0),
            (r is Err ==> r == Err::<Vec<R>, InvokeError>(InvokeError::NoRemoteNodes)
                && final(cl)@ == old(cl)@),
            (r matches Ok(out) ==> {
                &&& out@.len() == items@.len()
                &&& (forall|i: int|
                    0 <= i < items@.len() ==> call_ensures(
                        self.f,
                        (items@[i],),
                        #[trigger] out@[i],
                    ))
                &&& final(cl)@.workers.len() == old(cl)@.workers.len() + items@.len()
                &&& (forall|i: int|
                    0 <= i < old(cl)@.workers.len() ==> final(cl)@.workers[i]
                        == old(cl)@.workers[i])
                &&& (forall|j: int|
                    #![trigger final(cl)@.workers[old(cl)@.workers.len() + j]]
                    0 <= j < items@.len() ==> {
                        let w = final(cl)@.workers[old(cl)@.workers.len() + j];
                        &&& w.phase is Gone
                        &&& w.shutdowns == 1
                        &&& old(cl)@.remotes.contains(w.node)
                        &&& (self.settings.fanout_mode == FanoutMode::RoundRobin ==> w.node
                            == old(cl)@.remotes[j % old(cl)@.remotes.len() as int])
                    })
                &&& final(cl)@.local == old(cl)@.local
                &&& final(cl)@.remotes == old(cl)@.remotes
                &&& final(cl)@.faults == old(cl)@.faults
            }),
    {
        let n = items.len();
        if n > 0 && cl.remote_nodes().len() == 0 {
            return Err(InvokeError::NoRemoteNodes);
        }
        let ghost base = old(cl)@.workers.len() as int;
        let ghost rem_len = old(cl)@.remotes.len() as int;
        let local = cl.local_node();
        let is_round_robin = match self.settings.fanout_mode {
            FanoutMode::RoundRobin => true,
            FanoutMode::Random => false,
        };

        // Dispatch: one worker per item, in input order.
        let mut wids: Vec<usize> = Vec::new();
        let mut k: usize = 0;
        while k < n
            invariant
                cl@.wf(),
                n == items@.len(),
                (n > 0 ==> rem_len > 0),
                forall|i: int|
                    0 <= i < items@.len() ==> call_requires(self.f, (#[trigger] items@[i],)),
                is_round_robin == (self.settings.fanout_mode == FanoutMode::RoundRobin),
                rem_len == old(cl)@.remotes.len(),
                k <= n,
                wids@.len() == k,
                cl@.workers.len() == base + k,
                forall|i: int| 0 <= i < base ==> cl@.workers[i] == old(cl)@.workers[i],
                forall|j: int| 0 <= j < k ==> #[trigger] wids@[j] == base + j,
                forall|j: int|
                    #![trigger cl@.workers[base + j]]
                    0 <= j < k ==> {
                        let w = cl@.workers[base + j];
                        &&& w == Worker::<A, R>::launched(w.node, items@[j])
                        &&& old(cl)@.remotes.contains(w.node)
                        &&& (is_round_robin ==> w.node == old(cl)@.remotes[j % rem_len])
                    },
                cl@.local == old(cl)@.local,
                cl@.remotes == old(cl)@.remotes,
                cl@.faults == old(cl)@.faults,
            decreases n - k,
        {
            let sel = if is_round_robin {
                select_node(SelectPolicy::RoundRobin { index: k }, local, cl.remote_nodes())
            } else {
                select_node(SelectPolicy::RandomRemote, local, cl.remote_nodes())
            };
            let node = match sel {
                Ok(nd) => nd,
                Err(e) => {
                    proof {
                        assert(false);
                    }
                    return Err(e);
                },
            };
            proof {
                if is_round_robin {
                    assert(old(cl)@.remotes.contains(node)) by {
                        assert(old(cl)@.remotes[k as int % rem_len] == node);
                    }
                }
            }
            let ghost ws0 = cl@.workers;
            let wid = cl.spawn_init(node, self.settings.init_retry_interval_ms);
            cl.deliver_async_init(wid, items[k], self.settings.async_init_retry_interval_ms);
            wids.push(wid);
            proof {
                assert(wid as int == base + k as int);
                assert(cl@.workers =~= ws0.push(
                    Worker::<A, R>::launched(node, items@[k as int]),
                ));
                assert forall|j: int|
                    #![trigger cl@.workers[base + j]]
                    0 <= j < k + 1 implies {
                    let w = cl@.workers[base + j];
                    &&& w == Worker::<A, R>::launched(w.node, items@[j])
                    &&& old(cl)@.remotes.contains(w.node)
                    &&& (is_round_robin ==> w.node == old(cl)@.remotes[j % rem_len])
                } by {
                    if j < k as int {
                        assert(ws0.push(
                            Worker::<A, R>::launched(node, items@[k as int]),
                        )[base + j] == ws0[base + j]);
                        assert(cl@.workers[base + j] == ws0[base + j]);
                    } else {
                        assert(cl@.workers[base + j] == Worker::<A, R>::launched(
                            node,
                            items@[j],
                        ));
                    }
                }
            }
            k = k + 1;
        }

        // One empty slot per item.
        let mut results: Vec<Option<R>> = Vec::new();
        let mut t: usize = 0;
        while t < n
            invariant
                t <= n,
                results@.len() == t,
                forall|j: int| 0 <= j < t ==> (#[trigger] results@[j]) is None,
                unresolved(results@) == t,
            decreases n - t,
        {
            proof {
                assert(results@.push(None::<R>).drop_last() =~= results@);
            }
            results.push(None);
            t = t + 1;
        }

        // Reconciliation: sweep unresolved slots until every one is complete.
        let mut remaining: usize = n;
        while remaining > 0
            invariant
                cl@.wf(),
                n == items@.len(),
                forall|i: int|
                    0 <= i < items@.len() ==> call_requires(self.f, (#[trigger] items@[i],)),
                is_round_robin == (self.settings.fanout_mode == FanoutMode::RoundRobin),
                rem_len == old(cl)@.remotes.len(),
                results@.len() == n,
                wids@.len() == n,
                forall|j: int| 0 <= j < n ==> #[trigger] wids@[j] == base + j,
                cl@.workers.len() == base + n,
                forall|i: int| 0 <= i < base ==> cl@.workers[i] == old(cl)@.workers[i],
                forall|j: int|
                    #![auto]
                    0 <= j < n ==> fanout_slot_ok(
                        cl@.workers[base + j],
                        results@[j],
                        items@[j],
                        self.f,
                    ),
                forall|j: int|
                    #![trigger cl@.workers[base + j]]
                    0 <= j < n ==> {
                        let w = cl@.workers[base + j];
                        &&& old(cl)@.remotes.contains(w.node)
                        &&& (is_round_robin ==> w.node == old(cl)@.remotes[j % rem_len])
                    },
                cl@.local == old(cl)@.local,
                cl@.remotes == old(cl)@.remotes,
                cl@.faults == old(cl)@.faults,
                remaining as nat == unresolved(results@),
            decreases
                remaining,
                (if (exists|j: int|
                    0 <= j < n && results@[j] is None && cl@.workers[base + j].pending
                        is Some) {
                    1int
                } else {
                    0int
                }),
        {
            let ghost head_results = results@;
            let ghost head_workers = cl@.workers;
            let ghost head_remaining = remaining as int;
            let mut collected = false;
            let mut j: usize = 0;
            while j < n
                invariant
                    cl@.wf(),
                    n == items@.len(),
                    forall|i: int|
                        0 <= i < items@.len() ==> call_requires(self.f, (#[trigger] items@[i],)),
                    is_round_robin == (self.settings.fanout_mode == FanoutMode::RoundRobin),
                    rem_len == old(cl)@.remotes.len(),
                    results@.len() == n,
                    wids@.len() == n,
                    forall|jj: int| 0 <= jj < n ==> #[trigger] wids@[jj] == base + jj,
                    cl@.workers.len() == base + n,
                    forall|i: int| 0 <= i < base ==> cl@.workers[i] == old(cl)@.workers[i],
                    forall|jj: int|
                        #![auto]
                        0 <= jj < n ==> fanout_slot_ok(
                            cl@.workers[base + jj],
                            results@[jj],
                            items@[jj],
                            self.f,
                        ),
                    forall|jj: int|
                        #![trigger cl@.workers[base + jj]]
                        0 <= jj < n ==> {
                            let w = cl@.workers[base + jj];
                            &&& old(cl)@.remotes.contains(w.node)
                            &&& (is_round_robin ==> w.node == old(cl)@.remotes[jj % rem_len])
                        },
                    cl@.local == old(cl)@.local,
                    cl@.remotes == old(cl)@.remotes,
                    cl@.faults == old(cl)@.faults,
                    remaining as nat == unresolved(results@),
                    j <= n,
                    forall|jj: int|
                        0 <= jj < j ==> ((#[trigger] results@[jj]) is None ==> cl@.workers[base
                            + jj].store is None && cl@.workers[base + jj].pending is Some),
                    forall|jj: int|
                        #![auto]
                        0 <= jj < n ==> (head_results[jj] is Some ==> results@[jj]
                            == head_results[jj]),
                    (!collected ==> results@ == head_results && cl@.workers == head_workers
                        && remaining as int == head_remaining),
                    (collected ==> remaining < head_remaining),
                decreases n - j,
            {
                let cur = results[j];
                if cur.is_none() {
                    let wj = wids[j];
                    let ghost ws0 = cl@.workers;
                    let ghost rs0 = results@;
                    proof {
                        assert(fanout_slot_ok(
                            cl@.workers[base + j as int],
                            results@[j as int],
                            items@[j as int],
                            self.f,
                        ));
                    }
                    let got = cl.deliver_try_get(wj, self.settings.async_get_retry_interval_ms);
                    match got {
                        Some(v) => {
                            proof {
                                lemma_unresolved_positive(results@, j as int);
                                lemma_unresolved_update(results@, j as int, v);
                            }
                            let slot = &mut results[j];
                            *slot = Some(v);
                            cl.deliver_shutdown(wj, self.settings.shutdown_retry_interval_ms);
                            remaining = remaining - 1;
                            collected = true;
                            proof {
                                assert(results@ =~= rs0.update(j as int, Some(v)));
                                assert(wj as int == base + j as int);
                                assert(cl@.workers =~= ws0.update(
                                    base + j as int,
                                    Worker::<A, R>::spent(ws0[base + j as int].node),
                                ));
                                assert forall|jj: int| #![auto]
                                    0 <= jj < n implies fanout_slot_ok(
                                    cl@.workers[base + jj],
                                    results@[jj],
                                    items@[jj],
                                    self.f,
                                ) by {
                                    if jj != j as int {
                                        assert(ws0.update(
                                            base + j as int,
                                            Worker::<A, R>::spent(ws0[base + j as int].node),
                                        )[base + jj] == ws0[base + jj]);
                                        assert(cl@.workers[base + jj] == ws0[base + jj]);
                                        assert(results@[jj] == rs0[jj]);
                                        assert(fanout_slot_ok(
                                            ws0[base + jj],
                                            rs0[jj],
                                            items@[jj],
                                            self.f,
                                        ));
                                    }
                                }
                                assert forall|jj: int|
                                    #![trigger cl@.workers[base + jj]]
                                    0 <= jj < n implies {
                                    let w = cl@.workers[base + jj];
                                    &&& old(cl)@.remotes.contains(w.node)
                                    &&& (is_round_robin ==> w.node == old(cl)@.remotes[jj
                                        % rem_len])
                                } by {
                                    if jj != j as int {
                                        assert(ws0.update(
                                            base + j as int,
                                            Worker::<A, R>::spent(ws0[base + j as int].node),
                                        )[base + jj] == ws0[base + jj]);
                                    }
                                    assert(cl@.workers[base + jj].node == ws0[base + jj].node);
                                }
                                assert forall|jj: int|
                                    0 <= jj < j + 1 implies ((#[trigger] results@[jj]) is None
                                    ==> cl@.workers[base + jj].store is None && cl@.workers[base
                                    + jj].pending is Some) by {
                                    if jj < j as int {
                                        assert(ws0.update(
                                            base + j as int,
                                            Worker::<A, R>::spent(ws0[base + j as int].node),
                                        )[base + jj] == ws0[base + jj]);
                                        assert(cl@.workers[base + jj] == ws0[base + jj]);
                                        assert(results@[jj] == rs0[jj]);
                                    }
                                }
                            }
                        },
                        None => {
                            proof {
                                assert(cl@.workers[base + j as int].store is None);
                                assert(cl@.workers[base + j as int].pending is Some);
                            }
                        },
                    }
                }
                j = j + 1;
            }
            if remaining > 0 {
                proof {
                    if !collected {
                        lemma_unresolved_witness(results@);
                        let jj = choose|jj: int| 0 <= jj < results@.len() && results@[jj] is None;
                        assert(cl@.workers[base + jj].pending is Some);
                        assert(head_results[jj] is None && head_workers[base + jj].pending
                            is Some);
                    }
                }
                // Between sweeps, the outstanding background computations run.
                let mut j2: usize = 0;
                while j2 < n
                invariant
                    cl@.wf(),
                    n == items@.len(),
                    forall|i: int|
                        0 <= i < items@.len() ==> call_requires(self.f, (#[trigger] items@[i],)),
                    is_round_robin == (self.settings.fanout_mode == FanoutMode::RoundRobin),
                    rem_len == old(cl)@.remotes.len(),
                    results@.len() == n,
                    wids@.len() == n,
                    forall|jj: int| 0 <= jj < n ==> #[trigger] wids@[jj] == base + jj,
                    cl@.workers.len() == base + n,
                    forall|i: int| 0 <= i < base ==> cl@.workers[i] == old(cl)@.workers[i],
                    forall|jj: int|
                        #![auto]
                        0 <= jj < n ==> fanout_slot_ok(
                            cl@.workers[base + jj],
                            results@[jj],
                            items@[jj],
                            self.f,
                        ),
                    forall|jj: int|
                        #![trigger cl@.workers[base + jj]]
                        0 <= jj < n ==> {
                            let w = cl@.workers[base + jj];
                            &&& old(cl)@.remotes.contains(w.node)
                            &&& (is_round_robin ==> w.node == old(cl)@.remotes[jj % rem_len])
                        },
                    cl@.local == old(cl)@.local,
                    cl@.remotes == old(cl)@.remotes,
                    cl@.faults == old(cl)@.faults,
                    remaining as nat == unresolved(results@),
                    j2 <= n,
                    forall|jj: int|
                        #![trigger cl@.workers[base + jj]]
                        0 <= jj < j2 ==> cl@.workers[base + jj].pending is None,
                    (!collected ==> remaining as int == head_remaining),
                    (collected ==> remaining < head_remaining),
                    (!collected ==> exists|jj: int|
                        0 <= jj < n && head_results[jj] is None && head_workers[base
                            + jj].pending is Some),
                decreases n - j2,
            {
                let wj2 = wids[j2];
                let ghost ws0 = cl@.workers;
                proof {
                    assert(fanout_slot_ok(
                        cl@.workers[base + j2 as int],
                        results@[j2 as int],
                        items@[j2 as int],
                        self.f,
                    ));
                    assert(call_requires(self.f, (items@[j2 as int],)));
                }
                cl.advance_worker(wj2, &self.f, self.settings.async_set_retry_interval_ms);
                proof {
                    assert(wj2 as int == base + j2 as int);
                    assert(cl@.workers =~= ws0.update(
                        base + j2 as int,
                        cl@.workers[base + j2 as int],
                    ));
                    assert forall|jj: int|
                        0 <= jj < n && jj != j2 as int implies #[trigger] cl@.workers[base + jj]
                        == ws0[base + jj] by {
                        assert(ws0.update(
                            base + j2 as int,
                            cl@.workers[base + j2 as int],
                        )[base + jj] == ws0[base + jj]);
                    }
                    assert forall|jj: int| #![auto]
                        0 <= jj < n implies fanout_slot_ok(
                        cl@.workers[base + jj],
                        results@[jj],
                        items@[jj],
                        self.f,
                    ) by {
                        if jj != j2 as int {
                            assert(cl@.workers[base + jj] == ws0[base + jj]);
                            assert(fanout_slot_ok(ws0[base + jj], results@[jj], items@[jj], self.f));
                        }
                    }
                    assert forall|jj: int|
                        #![trigger cl@.workers[base + jj]]
                        0 <= jj < n implies {
                        let w = cl@.workers[base + jj];
                        &&& old(cl)@.remotes.contains(w.node)
                        &&& (is_round_robin ==> w.node == old(cl)@.remotes[jj % rem_len])
                    } by {
                        assert(cl@.workers[base + jj].node == ws0[base + jj].node);
                    }
                    assert forall|jj: int|
                        #![trigger cl@.workers[base + jj]]
                        0 <= jj < j2 + 1 implies cl@.workers[base + jj].pending is None by {
                        if jj != j2 as int {
                            assert(cl@.workers[base + jj] == ws0[base + jj]);
                        }
                    }
                }
                    j2 = j2 + 1;
                }
            }
        }
        proof {
            assert forall|jx: int| 0 <= jx < n implies (#[trigger] results@[jx]) is Some by {
                if results@[jx] is None {
                    lemma_unresolved_positive(results@, jx);
                }
            }
        }

        // Collect in input order: results map back to inputs one to one.
        let mut out: Vec<R> = Vec::new();
        let mut q: usize = 0;
        while q < n
            invariant
                n == items@.len(),
                results@.len() == n,
                forall|j: int| 0 <= j < n ==> (#[trigger] results@[j]) is Some,
                forall|j: int|
                    #![auto]
                    0 <= j < n ==> fanout_slot_ok(
                        cl@.workers[base + j],
                        results@[j],
                        items@[j],
                        self.f,
                    ),
                q <= n,
                out@.len() == q,
                forall|i: int|
                    0 <= i < q ==> call_ensures(self.f, (items@[i],), #[trigger] out@[i]),
            decreases n - q,
        {
            let cur = results[q];
            let v = cur.unwrap();
            out.push(v);
            q = q + 1;
        }
        proof {
            assert forall|j: int|
                #![trigger cl@.workers[base + j]]
                0 <= j < n implies {
                let w = cl@.workers[base + j];
                &&& w.phase is Gone
                &&& w.shutdowns == 1
                &&& old(cl)@.remotes.contains(w.node)
                &&& (self.settings.fanout_mode == FanoutMode::RoundRobin ==> w.node == old(
                    cl,
                )@.remotes[j % rem_len])
            } by {
                assert(fanout_slot_ok(cl@.workers[base + j], results@[j], items@[j], self.f));
                assert(results@[j] is Some);
            }
        }
        Ok(out)
    }
}

} // verus!
