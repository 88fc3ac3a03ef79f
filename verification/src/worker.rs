//! One worker's state and its request handlers.

use vstd::prelude::*;
use crate::lifecycle::LifecyclePhase;
use crate::node::NodeId;

verus! {

/// One worker of the cluster, as the coordinator's ledger records it: where
/// it runs, how far through its life it is, its stored result cell, the
/// background task it may have launched, and how many shutdown calls it has
/// received.
///
/// The worker's internal state walks `Idle(None)` (an empty cell, nothing
/// launched) to `Computing` (`pending` holds the launched task's arguments)
/// to `Idle(Some(result))` (`store` holds the result) for asynchronous jobs;
/// synchronous jobs compute inline and never touch the cell.
pub struct Worker<A, R> {
    /// The cluster member this worker was spawned on.
    pub node: NodeId,
    /// Where the worker stands in its lifecycle.
    pub phase: LifecyclePhase,
    /// The worker's stored result cell, filled at most once.
    pub store: Option<R>,
    /// Arguments of the launched background computation that has not yet
    /// stored its result.
    pub pending: Option<A>,
    /// How many shutdown calls the worker has received while alive.
    pub shutdowns: u64,
}

impl<A, R> Worker<A, R> {
    /// What holds of every worker the coordinator ever produces: it is
    /// serving or gone; it is gone exactly when it has received its one
    /// shutdown call, and it never receives a second; a stored result ends
    /// the background task; shutdown discards the cell and any unfinished
    /// task.
    pub open spec fn wf(self) -> bool {
        &&& (self.phase is Ready || self.phase is Gone)
        &&& self.shutdowns <= 1
        &&& (self.phase is Gone <==> self.shutdowns == 1)
        &&& (self.store is Some ==> self.pending is None)
        &&& (self.phase is Gone ==> self.store is None && self.pending is None)
    }

    /// A worker freshly spawned on `node`: ready, with an empty cell,
    /// nothing launched, and no shutdown received.
    pub open spec fn fresh(node: NodeId) -> Worker<A, R> {
        Worker { node, phase: LifecyclePhase::Ready, store: None, pending: None, shutdowns: 0 }
    }

    /// A worker on `node` that has been torn down: gone after exactly one
    /// shutdown call, its cell and any unfinished task discarded.
    pub open spec fn spent(node: NodeId) -> Worker<A, R> {
        Worker { node, phase: LifecyclePhase::Gone, store: None, pending: None, shutdowns: 1 }
    }

    /// A worker on `node` that acknowledged the launch of its background
    /// computation of `args` and has not yet stored a result.
    pub open spec fn launched(node: NodeId, args: A) -> Worker<A, R> {
        Worker {
            node,
            phase: LifecyclePhase::Ready,
            store: None,
            pending: Some(args),
            shutdowns: 0,
        }
    }
}

/// Handler of a synchronous `Get` request: the worker computes the job
/// inline, inside the request handler, and answers with the result; its
/// stored cell is not involved.
pub fn handle_get<A, R, F: Fn(A) -> R>(f: &F, args: A) -> (r: R)
    requires
        call_requires(*f, (args,)),
    ensures
        call_ensures(*f, (args,), r),
{
    f(args)
}

/// Handler of a `Set` request: the worker's child task calls back into the
/// worker to store the computed result in its cell.
pub fn handle_set<R>(store: &mut Option<R>, value: R)
    ensures
        *final(store) == Some(value),
{
    *store = Some(value);
}

/// Handler of a non-blocking `TryGet` request: answers with the content of
/// the stored cell, leaving it in place, so that a resolved cell answers the
/// same value on every later poll.
pub fn handle_try_get<R: Copy>(store: &Option<R>) -> (r: Option<R>)
    ensures
        r == *store,
{
    *store
}

} // verus!
