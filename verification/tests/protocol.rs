//! The job invocation paths, driven end to end against the in-process
//! cluster: synchronous round trips, asynchronous handles, fanout, node
//! selection, and the retry discipline under injected timeouts.

use lucidity::cluster::LocalCluster;
use lucidity::config::{FanoutMode, JobSettings, WorkerConfig};
use lucidity::job::Job;
use lucidity::lifecycle::LifecyclePhase;
use lucidity::node::{select_node, InvokeError, NodeId, SelectPolicy};
use lucidity::lifecycle::{lifecycle_step, LifecycleEvent};
use lucidity::retry::{retry_step, CallOutcome, RetryDecision};

fn square(x: u64) -> u64 {
    x * x
}

fn add_pair(p: (u64, u64)) -> u64 {
    p.0 + p.1
}

fn new_local_cluster() -> LocalCluster<u64, u64> {
    LocalCluster::new(NodeId(0), Vec::new())
}

fn new_remote_cluster(ids: &[u64]) -> LocalCluster<u64, u64> {
    let remotes: Vec<NodeId> = ids.iter().map(|&n| NodeId(n)).collect();
    LocalCluster::new(NodeId(0), remotes)
}

#[test]
fn local_sync_computes_the_job_function() {
    let job = Job::new(square);
    let mut cl = new_local_cluster();
    assert_eq!(job.invoke_local_sync(&mut cl, 5), 25);
    assert_eq!(job.invoke_local_sync(&mut cl, 0), 0);
    assert_eq!(job.invoke_local_sync(&mut cl, 13), 169);
}

#[test]
fn local_sync_tears_its_worker_down_exactly_once() {
    let job = Job::new(square);
    let mut cl = new_local_cluster();
    let _ = job.invoke_local_sync(&mut cl, 7);
    assert_eq!(cl.worker_count(), 1);
    assert_eq!(cl.worker_phase(0), LifecyclePhase::Gone);
    assert_eq!(cl.worker_shutdowns(0), 1);
    assert_eq!(cl.worker_node(0), NodeId(0));
}

#[test]
fn async_handle_polls_and_awaits() {
    let job = Job::new(square);
    let mut cl = new_local_cluster();
    let h = job.invoke_local_async(&mut cl, 5);
    // Polled before the background computation has run: no result yet.
    assert_eq!(h.try_get(&job, &mut cl), None);
    assert_eq!(h.try_get(&job, &mut cl), None);
    // The blocking wait returns only once the worker has stored the result.
    assert_eq!(h.await_get(&job, &mut cl), 25);
    // Once resolved, every later poll answers the same stored value.
    assert_eq!(h.try_get(&job, &mut cl), Some(25));
    assert_eq!(h.try_get(&job, &mut cl), Some(25));
    let mut h = h;
    h.release(&job, &mut cl);
    assert!(h.released);
    assert_eq!(cl.worker_shutdowns(0), 1);
}

#[test]
fn releasing_a_handle_twice_shuts_down_once() {
    let job = Job::new(square);
    let mut cl = new_local_cluster();
    let mut h = job.invoke_local_async(&mut cl, 3);
    let _ = h.await_get(&job, &mut cl);
    h.release(&job, &mut cl);
    h.release(&job, &mut cl);
    h.release(&job, &mut cl);
    assert_eq!(cl.worker_phase(0), LifecyclePhase::Gone);
    assert_eq!(cl.worker_shutdowns(0), 1);
}

#[test]
fn fanout_returns_results_in_input_order() {
    let job = Job::new(square);
    let mut cl = new_remote_cluster(&[1, 2]);
    let items = vec![2u64, 3, 4];
    let out = job.invoke_remote_fanout(&mut cl, &items).unwrap();
    assert_eq!(out, vec![4, 9, 16]);
}

#[test]
fn fanout_matches_single_invocations() {
    let job = Job::new(square);
    let items = vec![5u64, 1, 9, 3, 0];
    let mut cl = new_remote_cluster(&[7, 8, 9]);
    let out = job.invoke_remote_fanout(&mut cl, &items).unwrap();
    for (i, item) in items.iter().enumerate() {
        let mut single = new_local_cluster();
        assert_eq!(out[i], job.invoke_local_sync(&mut single, *item));
    }
}

#[test]
fn fanout_tears_every_worker_down_exactly_once() {
    let job = Job::new(square);
    let mut cl = new_remote_cluster(&[1, 2]);
    let items = vec![2u64, 3, 4, 5];
    let _ = job.invoke_remote_fanout(&mut cl, &items).unwrap();
    assert_eq!(cl.worker_count(), 4);
    for wid in 0..4 {
        assert_eq!(cl.worker_phase(wid), LifecyclePhase::Gone);
        assert_eq!(cl.worker_shutdowns(wid), 1);
    }
}

#[test]
fn fanout_round_robin_spreads_items_over_members() {
    let job = Job::new(square);
    let mut cl = new_remote_cluster(&[10, 20]);
    let items = vec![1u64, 2, 3, 4, 5];
    let _ = job.invoke_remote_fanout(&mut cl, &items).unwrap();
    for (k, expected) in [10u64, 20, 10, 20, 10].iter().enumerate() {
        assert_eq!(cl.worker_node(k), NodeId(*expected));
    }
}

#[test]
fn fanout_random_places_items_on_members() {
    let mut settings = JobSettings::default();
    settings.fanout_mode = FanoutMode::Random;
    let job = Job::with_settings(square, settings);
    let mut cl = new_remote_cluster(&[10, 20]);
    let items = vec![1u64, 2, 3, 4];
    let out = job.invoke_remote_fanout(&mut cl, &items).unwrap();
    assert_eq!(out, vec![1, 4, 9, 16]);
    for k in 0..4 {
        let node = cl.worker_node(k);
        assert!(node == NodeId(10) || node == NodeId(20));
    }
}

#[test]
fn remote_paths_fail_without_remote_members() {
    let job = Job::new(square);
    let mut cl = new_local_cluster();
    assert_eq!(job.invoke_remote_sync(&mut cl, 5), Err(InvokeError::NoRemoteNodes));
    assert!(matches!(
        job.invoke_remote_async(&mut cl, 5),
        Err(InvokeError::NoRemoteNodes)
    ));
    let items = vec![1u64, 2];
    assert_eq!(
        job.invoke_remote_fanout(&mut cl, &items),
        Err(InvokeError::NoRemoteNodes)
    );
    // No silent fallback to the local node: nothing was spawned.
    assert_eq!(cl.worker_count(), 0);
}

#[test]
fn remote_sync_runs_on_a_cluster_member() {
    let job = Job::new(square);
    let mut cl = new_remote_cluster(&[4, 5, 6]);
    assert_eq!(job.invoke_remote_sync(&mut cl, 6), Ok(36));
    assert_eq!(cl.worker_count(), 1);
    let node = cl.worker_node(0);
    assert!([4u64, 5, 6].contains(&node.0));
    assert_eq!(cl.worker_shutdowns(0), 1);
}

#[test]
fn remote_async_round_trip() {
    let job = Job::new(square);
    let mut cl = new_remote_cluster(&[4]);
    let mut h = job.invoke_remote_async(&mut cl, 8).unwrap();
    assert_eq!(h.await_get(&job, &mut cl), 64);
    h.release(&job, &mut cl);
    assert_eq!(cl.worker_node(0), NodeId(4));
    assert_eq!(cl.worker_shutdowns(0), 1);
}

#[test]
fn retried_call_times_out_twice_then_succeeds() {
    let mut cl = new_local_cluster();
    let wid = cl.spawn_init(NodeId(0), 100);
    assert_eq!(cl.last_attempts(), 1);
    // A transport that times the first two attempts out and answers the
    // third: the call still returns the right result, in exactly three
    // attempts.
    cl.set_fault_script(vec![true, true, false]);
    let r = cl.deliver_get(wid, &square, 5, 250);
    assert_eq!(r, 25);
    assert_eq!(cl.last_attempts(), 3);
    assert_eq!(cl.last_interval_ms(), 250);
}

#[test]
fn retried_calls_pick_up_where_the_script_left_off() {
    let mut cl: LocalCluster<u64, u64> = new_local_cluster();
    cl.set_fault_script(vec![true, false, true, true, true, false]);
    let wid = cl.spawn_init(NodeId(0), 100);
    assert_eq!(cl.last_attempts(), 2);
    cl.deliver_shutdown(wid, 100);
    assert_eq!(cl.last_attempts(), 4);
}

#[test]
fn whole_invocation_survives_transport_timeouts() {
    let job = Job::new(square);
    let mut cl = new_local_cluster();
    cl.set_fault_script(vec![true, true, false, true, false, false]);
    assert_eq!(job.invoke_local_sync(&mut cl, 9), 81);
    assert_eq!(cl.worker_shutdowns(0), 1);
}

#[test]
fn retry_discipline_resends_on_timeout_only() {
    assert!(matches!(
        retry_step::<u64>(CallOutcome::TimedOut),
        RetryDecision::Resend
    ));
    assert!(matches!(
        retry_step(CallOutcome::Replied(7u64)),
        RetryDecision::Done(7)
    ));
}

#[test]
fn node_selection_policies() {
    let local = NodeId(99);
    let none: Vec<NodeId> = Vec::new();
    let members = vec![NodeId(1), NodeId(2), NodeId(3)];
    assert_eq!(select_node(SelectPolicy::Local, local, &none), Ok(local));
    assert_eq!(
        select_node(SelectPolicy::RandomRemote, local, &none),
        Err(InvokeError::NoRemoteNodes)
    );
    let picked = select_node(SelectPolicy::RandomRemote, local, &members).unwrap();
    assert!(members.contains(&picked));
    assert_eq!(
        select_node(SelectPolicy::RoundRobin { index: 5 }, local, &members),
        Ok(NodeId(3))
    );
    assert_eq!(
        select_node(SelectPolicy::RoundRobin { index: 0 }, local, &none),
        Err(InvokeError::NoRemoteNodes)
    );
}

#[test]
fn lifecycle_state_machine_transitions() {
    let steps = [
        (LifecyclePhase::Unspawned, LifecycleEvent::SpawnRequested, Some(LifecyclePhase::Spawning)),
        (LifecyclePhase::Spawning, LifecycleEvent::SpawnTimedOut, Some(LifecyclePhase::Spawning)),
        (LifecyclePhase::Spawning, LifecycleEvent::SpawnAcknowledged, Some(LifecyclePhase::Ready)),
        (LifecyclePhase::Ready, LifecycleEvent::ShutdownRequested, Some(LifecyclePhase::ShuttingDown)),
        (LifecyclePhase::ShuttingDown, LifecycleEvent::ShutdownTimedOut, Some(LifecyclePhase::ShuttingDown)),
        (LifecyclePhase::ShuttingDown, LifecycleEvent::ShutdownAcknowledged, Some(LifecyclePhase::Gone)),
        (LifecyclePhase::Gone, LifecycleEvent::SpawnRequested, None),
        (LifecyclePhase::Ready, LifecycleEvent::SpawnAcknowledged, None),
    ];
    for (phase, event, expected) in steps {
        assert_eq!(lifecycle_step(phase, event), expected);
    }
}

#[test]
fn settings_default_to_the_documented_values() {
    let s = JobSettings::default();
    assert_eq!(s.init_retry_interval_ms, 100);
    assert_eq!(s.sync_retry_interval_ms, 100);
    assert_eq!(s.async_init_retry_interval_ms, 100);
    assert_eq!(s.async_get_retry_interval_ms, 100);
    assert_eq!(s.async_set_retry_interval_ms, 100);
    assert_eq!(s.shutdown_retry_interval_ms, 100);
    assert_eq!(s.worker_config.max_memory, 100 * 1024 * 1024);
    assert_eq!(s.worker_config.max_fuel, 10);
    assert!(s.worker_config.can_spawn);
    assert!(s.worker_config.can_compile);
    assert_eq!(s.fanout_mode, FanoutMode::RoundRobin);
}

#[test]
fn worker_config_holds_its_limits() {
    let c = WorkerConfig::new(1024, 5, false, true);
    assert_eq!(c.max_memory, 1024);
    assert_eq!(c.max_fuel, 5);
    assert!(!c.can_spawn);
    assert!(c.can_compile);
}

#[test]
fn jobs_take_tupled_arguments() {
    let job = Job::new(add_pair);
    let mut cl: LocalCluster<(u64, u64), u64> = LocalCluster::new(NodeId(0), Vec::new());
    assert_eq!(job.invoke_local_sync(&mut cl, (2, 40)), 42);
    let h = job.invoke_local_async(&mut cl, (3, 4));
    assert_eq!(h.await_get(&job, &mut cl), 7);
}

#[test]
fn membership_changes_are_picked_up_at_call_time() {
    let job = Job::new(square);
    let mut cl = new_local_cluster();
    assert_eq!(job.invoke_remote_sync(&mut cl, 5), Err(InvokeError::NoRemoteNodes));
    cl.set_remote_nodes(vec![NodeId(3)]);
    assert_eq!(job.invoke_remote_sync(&mut cl, 5), Ok(25));
    assert_eq!(cl.worker_node(0), NodeId(3));
    cl.set_remote_nodes(Vec::new());
    assert_eq!(job.invoke_remote_sync(&mut cl, 5), Err(InvokeError::NoRemoteNodes));
}

#[test]
fn fanout_of_no_items_is_empty() {
    let job = Job::new(square);
    let mut cl = new_local_cluster();
    let items: Vec<u64> = Vec::new();
    assert_eq!(job.invoke_remote_fanout(&mut cl, &items), Ok(Vec::new()));
    assert_eq!(cl.worker_count(), 0);
}
