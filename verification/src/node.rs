//! Cluster members and the node-selection policy.

use vstd::prelude::*;

verus! {

/// Identifier of one cluster member, equality-comparable and otherwise
/// opaque to the protocol.
#[derive(Clone, Copy, Debug, PartialEq, Eq, Structural)]
pub struct NodeId(pub u64);

/// The hard failures an invocation can surface to its caller.
#[derive(Clone, Copy, Debug, PartialEq, Eq, Structural)]
pub enum InvokeError {
    /// A remote policy was requested while the cluster has no remote members.
    NoRemoteNodes,
}

/// The three node-selection policies, chosen per call.
#[derive(Clone, Copy, Debug, PartialEq, Eq, Structural)]
pub enum SelectPolicy {
    /// The caller's own node.
    Local,
    /// One remote cluster member, chosen uniformly at random.
    RandomRemote,
    /// Remote member `index mod n`, spreading a numbered sequence of
    /// requests evenly over the `n` members.
    RoundRobin {
        /// Position of this request in the sequence being spread.
        index: usize,
    },
}

/// Relies on `rand::Rng::gen_range` over `0..bound` with `rand::thread_rng`:
/// the result is uniform in the range, so strictly below `bound`; an empty
/// range would panic, hence the positive bound.
#[verifier::external_body]
fn random_index(bound: usize) -> (r: usize)
    requires
        bound > 0,
    ensures
        r < bound,
{
    rand::Rng::gen_range(&mut rand::thread_rng(), 0..bound)
}

/// Applies a node-selection policy to the membership snapshot `remotes`,
/// taken at call time.
///
/// The local policy always yields the caller's own node. Both remote
/// policies fail deterministically when the snapshot has no members, never
/// falling back to the local node; otherwise random selection yields some
/// member, and round-robin selection yields exactly member `index mod n`.
pub fn select_node(policy: SelectPolicy, local: NodeId, remotes: &Vec<NodeId>) -> (r: Result<
    NodeId,
    InvokeError,
>)
    ensures
        match policy {
            SelectPolicy::Local => r == Ok::<NodeId, InvokeError>(local),
            SelectPolicy::RandomRemote => {
                &&& (r is Err) <==> remotes@.len() == 0
                &&& (r matches Ok(n) ==> remotes@.contains(n))
                &&& (r is Err ==> r == Err::<NodeId, InvokeError>(InvokeError::NoRemoteNodes))
            },
            SelectPolicy::RoundRobin { index } => {
                if remotes@.len() == 0 {
                    r == Err::<NodeId, InvokeError>(InvokeError::NoRemoteNodes)
                } else {
                    r == Ok::<NodeId, InvokeError>(
                        remotes@[index as int % remotes@.len() as int],
                    )
                }
            },
        },
{
    match policy {
        SelectPolicy::Local => Ok(local),
        SelectPolicy::RandomRemote => {
            if remotes.len() == 0 {
                Err(InvokeError::NoRemoteNodes)
            } else {
                let i = random_index(remotes.len());
                let n = remotes[i];
                proof {
                    assert(remotes@.contains(remotes@[i as int]));
                }
                Ok(n)
            }
        },
        SelectPolicy::RoundRobin { index } => {
            if remotes.len() == 0 {
                Err(InvokeError::NoRemoteNodes)
            } else {
                Ok(remotes[index % remotes.len()])
            }
        },
    }
}

} // verus!
