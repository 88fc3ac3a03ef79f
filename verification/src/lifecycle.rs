//! The per-worker lifecycle state machine.

use vstd::prelude::*;

verus! {

/// Phases of one worker's life, from before it exists to after it is gone.
///
/// A worker is single-shot: it serves exactly one job during its life and is
/// discarded after producing its result, never reused.
#[derive(Clone, Copy, Debug, PartialEq, Eq, Structural)]
pub enum LifecyclePhase {
    /// No process exists yet.
    Unspawned,
    /// A spawn-and-initialize handshake is under way.
    Spawning,
    /// The worker answered its initialization handshake and serves requests.
    Ready,
    /// A shutdown request is under way.
    ShuttingDown,
    /// The worker acknowledged shutdown; its handle is dead.
    Gone,
}

/// Events that drive the lifecycle state machine.
#[derive(Clone, Copy, Debug, PartialEq, Eq, Structural)]
pub enum LifecycleEvent {
    /// A spawn-and-initialize attempt was issued.
    SpawnRequested,
    /// A spawn-and-initialize attempt timed out; it will be reissued.
    SpawnTimedOut,
    /// The worker acknowledged initialization with an empty state.
    SpawnAcknowledged,
    /// A shutdown attempt was issued.
    ShutdownRequested,
    /// A shutdown attempt timed out; it will be reissued.
    ShutdownTimedOut,
    /// The worker acknowledged shutdown.
    ShutdownAcknowledged,
}

/// The transition relation of the lifecycle state machine; `None` marks a
/// pairing of phase and event that the protocol never produces.
///
/// Timed-out attempts loop on their phase: a timeout only causes the calling
/// context to reissue the same request.
pub open spec fn lifecycle_next(phase: LifecyclePhase, event: LifecycleEvent) -> Option<
    LifecyclePhase,
> {
    match (phase, event) {
        (LifecyclePhase::Unspawned, LifecycleEvent::SpawnRequested) => Some(
            LifecyclePhase::Spawning,
        ),
        (LifecyclePhase::Spawning, LifecycleEvent::SpawnTimedOut) => Some(LifecyclePhase::Spawning),
        (LifecyclePhase::Spawning, LifecycleEvent::SpawnAcknowledged) => Some(LifecyclePhase::Ready),
        (LifecyclePhase::Ready, LifecycleEvent::ShutdownRequested) => Some(
            LifecyclePhase::ShuttingDown,
        ),
        (LifecyclePhase::ShuttingDown, LifecycleEvent::ShutdownTimedOut) => Some(
            LifecyclePhase::ShuttingDown,
        ),
        (LifecyclePhase::ShuttingDown, LifecycleEvent::ShutdownAcknowledged) => Some(
            LifecyclePhase::Gone,
        ),
        _ => None,
    }
}

/// Advances the lifecycle state machine by one event.
pub fn lifecycle_step(phase: LifecyclePhase, event: LifecycleEvent) -> (r: Option<LifecyclePhase>)
    ensures
        r == lifecycle_next(phase, event),
{
    match (phase, event) {
        (LifecyclePhase::Unspawned, LifecycleEvent::SpawnRequested) => Some(
            LifecyclePhase::Spawning,
        ),
        (LifecyclePhase::Spawning, LifecycleEvent::SpawnTimedOut) => Some(LifecyclePhase::Spawning),
        (LifecyclePhase::Spawning, LifecycleEvent::SpawnAcknowledged) => Some(LifecyclePhase::Ready),
        (LifecyclePhase::Ready, LifecycleEvent::ShutdownRequested) => Some(
            LifecyclePhase::ShuttingDown,
        ),
        (LifecyclePhase::ShuttingDown, LifecycleEvent::ShutdownTimedOut) => Some(
            LifecyclePhase::ShuttingDown,
        ),
        (LifecyclePhase::ShuttingDown, LifecycleEvent::ShutdownAcknowledged) => Some(
            LifecyclePhase::Gone,
        ),
        _ => None,
    }
}

} // verus!
