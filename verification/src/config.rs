//! Worker resource limits and per-call-kind retry settings.

use vstd::prelude::*;

verus! {

/// Default retry interval, in milliseconds, for every retried call kind.
pub const DEFAULT_RETRY_INTERVAL_MS: u64 = 100;

/// Default worker memory ceiling: 100 MiB.
pub const DEFAULT_MAX_MEMORY: u64 = 104857600;

/// Default worker CPU-fuel budget.
pub const DEFAULT_MAX_FUEL: u64 = 10;

/// Resource-limit descriptor attached to every worker at spawn time.
/// Immutable once built.
#[derive(Clone, Copy, Debug)]
pub struct WorkerConfig {
    /// Memory ceiling for the worker, in bytes. Always positive.
    pub max_memory: u64,
    /// CPU-fuel budget for the worker.
    pub max_fuel: u64,
    /// Whether the worker may spawn further processes.
    pub can_spawn: bool,
    /// Whether the worker may compile modules.
    pub can_compile: bool,
}

impl WorkerConfig {
    /// A configuration is well formed when its memory ceiling is positive.
    pub open spec fn wf(self) -> bool {
        self.max_memory > 0
    }

    /// Builds a configuration. A zero memory ceiling is malformed and would
    /// abort the spawning context, so it is excluded up front.
    pub fn new(max_memory: u64, max_fuel: u64, can_spawn: bool, can_compile: bool) -> (c: WorkerConfig)
        requires
            max_memory > 0,
        ensures
            c == (WorkerConfig { max_memory, max_fuel, can_spawn, can_compile }),
            c.wf(),
    {
        WorkerConfig { max_memory, max_fuel, can_spawn, can_compile }
    }
}

/// The default worker limits: 100 MiB of memory, 10 units of fuel, and both
/// spawn and compile capabilities granted.
pub open spec fn default_worker_config() -> WorkerConfig {
    WorkerConfig {
        max_memory: DEFAULT_MAX_MEMORY,
        max_fuel: DEFAULT_MAX_FUEL,
        can_spawn: true,
        can_compile: true,
    }
}

impl Default for WorkerConfig {
    /// Builds [`default_worker_config`].
    fn default() -> (c: WorkerConfig)
        ensures
            c == default_worker_config(),
            c.wf(),
    {
        WorkerConfig {
            max_memory: DEFAULT_MAX_MEMORY,
            max_fuel: DEFAULT_MAX_FUEL,
            can_spawn: true,
            can_compile: true,
        }
    }
}

/// How the fanout coordinator spreads items over the cluster.
#[derive(Clone, Copy, Debug, PartialEq, Eq, Structural)]
pub enum FanoutMode {
    /// Item `k` goes to cluster member `k mod n`.
    RoundRobin,
    /// Every item goes to a uniformly chosen cluster member.
    Random,
}

/// The per-call-kind retry intervals, the worker resource limits, and the
/// fanout node-selection mode for one job definition.
///
/// Each retried call kind is independently configurable; an interval of zero
/// means busy-retry. The intervals bound one attempt of the corresponding
/// call; a timed-out attempt is reissued after that long, without limit.
#[derive(Clone, Copy, Debug)]
pub struct JobSettings {
    /// Per-attempt timeout for the spawn-and-initialize handshake.
    pub init_retry_interval_ms: u64,
    /// Per-attempt timeout for the synchronous result fetch.
    pub sync_retry_interval_ms: u64,
    /// Per-attempt timeout for launching the background computation.
    pub async_init_retry_interval_ms: u64,
    /// Per-attempt timeout for polling a stored result.
    pub async_get_retry_interval_ms: u64,
    /// Per-attempt timeout for the worker's child task storing its result.
    pub async_set_retry_interval_ms: u64,
    /// Per-attempt timeout for the shutdown request.
    pub shutdown_retry_interval_ms: u64,
    /// Resource limits attached to every spawned worker.
    pub worker_config: WorkerConfig,
    /// Node-selection mode used by the fanout coordinator.
    pub fanout_mode: FanoutMode,
}

impl JobSettings {
    /// Settings are well formed when the worker configuration is.
    pub open spec fn wf(self) -> bool {
        self.worker_config.wf()
    }
}

/// The documented defaults: every retry interval 100 ms, default worker
/// limits, and round-robin fanout.
pub open spec fn default_job_settings() -> JobSettings {
    JobSettings {
        init_retry_interval_ms: DEFAULT_RETRY_INTERVAL_MS,
        sync_retry_interval_ms: DEFAULT_RETRY_INTERVAL_MS,
        async_init_retry_interval_ms: DEFAULT_RETRY_INTERVAL_MS,
        async_get_retry_interval_ms: DEFAULT_RETRY_INTERVAL_MS,
        async_set_retry_interval_ms: DEFAULT_RETRY_INTERVAL_MS,
        shutdown_retry_interval_ms: DEFAULT_RETRY_INTERVAL_MS,
        worker_config: default_worker_config(),
        fanout_mode: FanoutMode::RoundRobin,
    }
}

impl Default for JobSettings {
    /// Builds [`default_job_settings`].
    fn default() -> (s: JobSettings)
        ensures
            s == default_job_settings(),
            s.wf(),
    {
        JobSettings {
            init_retry_interval_ms: DEFAULT_RETRY_INTERVAL_MS,
            sync_retry_interval_ms: DEFAULT_RETRY_INTERVAL_MS,
            async_init_retry_interval_ms: DEFAULT_RETRY_INTERVAL_MS,
            async_get_retry_interval_ms: DEFAULT_RETRY_INTERVAL_MS,
            async_set_retry_interval_ms: DEFAULT_RETRY_INTERVAL_MS,
            shutdown_retry_interval_ms: DEFAULT_RETRY_INTERVAL_MS,
            worker_config: WorkerConfig {
                max_memory: DEFAULT_MAX_MEMORY,
                max_fuel: DEFAULT_MAX_FUEL,
                can_spawn: true,
                can_compile: true,
            },
            fanout_mode: FanoutMode::RoundRobin,
        }
    }
}

} // verus!
