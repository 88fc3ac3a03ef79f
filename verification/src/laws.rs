//! Relations between the invocation paths, stated and proved once for every
//! job.

use vstd::prelude::*;
use crate::cluster::ClusterModel;

verus! {

/// A computation is deterministic when any two results it allows for the
/// same arguments are the same value: it computes a function.
pub open spec fn deterministic<A, R, F: Fn(A) -> R>(f: F) -> bool {
    forall|a: A, r1: R, r2: R|
        call_ensures(f, (a,), r1) && call_ensures(f, (a,), r2) ==> r1 == r2
}

/// A job invocation computes its job function: every invocation path
/// returns a result the computation allows, so for a deterministic job any
/// invocation — synchronous round trip, awaited handle, or fanout slot —
/// returns exactly the value of the function on its arguments.
pub proof fn lemma_deterministic_result<A, R, F: Fn(A) -> R>(f: F, a: A, r1: R, r2: R)
    requires
        deterministic::<A, R, F>(f),
        call_ensures(f, (a,), r1),
        call_ensures(f, (a,), r2),
    ensures
        r1 == r2,
{
}

/// Fanout preserves input order: for a deterministic job, slot `i` of a
/// fanout over `items` holds exactly what a single invocation of `items[i]`
/// returns, for every `i`, regardless of the order in which the workers
/// finished.
pub proof fn lemma_fanout_preserves_order<A, R, F: Fn(A) -> R>(
    f: F,
    items: Seq<A>,
    fanout: Seq<R>,
    single: Seq<R>,
)
    requires
        deterministic::<A, R, F>(f),
        fanout.len() == items.len(),
        single.len() == items.len(),
        forall|i: int|
            0 <= i < items.len() ==> call_ensures(f, (items[i],), #[trigger] fanout[i]),
        forall|i: int|
            0 <= i < items.len() ==> call_ensures(f, (items[i],), #[trigger] single[i]),
    ensures
        fanout =~= single,
{
    assert forall|i: int| 0 <= i < items.len() implies #[trigger] fanout[i] == single[i] by {
        lemma_deterministic_result(f, items[i], fanout[i], single[i]);
    }
}

/// Every worker of a well-formed cluster receives each shutdown at most
/// once, and is gone exactly when it has received its single shutdown call:
/// no worker is torn down twice, and no worker that was torn down lingers.
pub proof fn lemma_shutdown_exactly_once<A, R>(m: ClusterModel<A, R>, i: int)
    requires
        m.wf(),
        0 <= i < m.workers.len(),
    ensures
        m.workers[i].shutdowns <= 1,
        m.workers[i].phase is Gone <==> m.workers[i].shutdowns == 1,
{
}

} // verus!
