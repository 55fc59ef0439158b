use now_playing::backoff::BackoffPolicy;
use now_playing::launch::{LaunchReport, SpawnError};
use now_playing::reconcile::RefreshPlan;
use now_playing::restart::RestartPolicy;
use now_playing::shutdown::{
    Probe, StopPhase, StopPlan, StopSequence, StopStep, STOP_POLL_INTERVAL_MS, STOP_TIMEOUT_MS,
};
use now_playing::supervisor::{SidecarManager, StreamEndPlan};
use now_playing::types::{AppState, ConnectionStatus};

const STARTED: LaunchReport = LaunchReport {
    launched: true,
    stdin_captured: true,
    stdout_captured: true,
    stderr_captured: true,
};

#[test]
fn a_new_policy_counts_nothing_and_asks_for_nothing() {
    let policy = RestartPolicy::new();
    assert_eq!(policy.count(), 0);
    assert!(!policy.is_shutdown_requested());
}

#[test]
fn restarts_are_counted_until_a_connection_is_confirmed() {
    let mut policy = RestartPolicy::new();
    policy.record_restart();
    policy.record_restart();
    assert_eq!(policy.count(), 2);
    policy.confirm_connected();
    assert_eq!(policy.count(), 0);
    policy.record_restart();
    assert_eq!(policy.count(), 1);
    assert!(!policy.is_shutdown_requested());
}

#[test]
fn a_requested_shutdown_stays_requested() {
    let mut policy = RestartPolicy::new();
    policy.record_restart();
    policy.request_shutdown();
    assert!(policy.is_shutdown_requested());
    assert_eq!(policy.count(), 1);
    policy.record_restart();
    policy.confirm_connected();
    policy.request_shutdown();
    assert!(policy.is_shutdown_requested());

    let next = policy.for_new_worker();
    assert!(!next.is_shutdown_requested());
    assert_eq!(next.count(), policy.count());
    assert!(policy.is_shutdown_requested());
}

#[test]
fn a_launch_that_counts_attaches_the_worker() {
    let mut manager = SidecarManager::new();
    assert!(!manager.has_worker());
    let mut policy = RestartPolicy::new();
    policy.record_restart();
    let shared = manager.spawn(&policy, STARTED).unwrap();
    assert!(manager.has_worker());
    assert_eq!(shared.count(), 1);
    assert!(!shared.is_shutdown_requested());
    assert_eq!(shared, policy);
}

#[test]
fn a_launch_after_a_shutdown_runs_under_a_policy_of_its_own() {
    let mut manager = SidecarManager::new();
    let mut policy = RestartPolicy::new();
    manager.spawn(&policy, STARTED).unwrap();
    manager.stop(&mut policy);
    let shared = manager.spawn(&policy, STARTED).unwrap();
    assert!(manager.has_worker());
    assert!(!shared.is_shutdown_requested());
    assert!(policy.is_shutdown_requested());
}

#[test]
fn a_launch_that_fails_attaches_nothing() {
    let mut manager = SidecarManager::new();
    let policy = RestartPolicy::new();
    assert_eq!(
        manager.spawn(&policy, LaunchReport { launched: false, ..STARTED }),
        Err(SpawnError::SpawnFailure)
    );
    assert!(!manager.has_worker());
    assert_eq!(
        manager.spawn(&policy, LaunchReport { stderr_captured: false, ..STARTED }),
        Err(SpawnError::StreamCaptureFailure)
    );
    assert!(!manager.has_worker());
    manager.spawn(&policy, STARTED).unwrap();
    assert_eq!(
        manager.spawn(&policy, LaunchReport { stdout_captured: false, ..STARTED }),
        Err(SpawnError::StreamCaptureFailure)
    );
    assert!(manager.has_worker());
}

#[test]
fn only_an_attached_worker_that_was_seen_running_is_running() {
    let mut manager = SidecarManager::new();
    assert!(!manager.is_running(Probe::Running));
    assert!(!manager.is_running(Probe::Exited));
    manager.spawn(&RestartPolicy::new(), STARTED).unwrap();
    assert!(manager.is_running(Probe::Running));
    assert!(!manager.is_running(Probe::Exited));
    assert!(!manager.is_running(Probe::Failed));
    assert!(manager.has_worker());
}

#[test]
fn stopping_twice_hands_the_worker_out_once() {
    let mut manager = SidecarManager::new();
    let mut policy = RestartPolicy::new();
    manager.spawn(&policy, STARTED).unwrap();
    assert_eq!(manager.stop(&mut policy), StopPlan::Terminate);
    assert!(policy.is_shutdown_requested());
    assert!(!manager.is_running(Probe::Running));
    assert_eq!(manager, SidecarManager::new());
    assert_eq!(manager.stop(&mut policy), StopPlan::Nothing);
    assert_eq!(manager, SidecarManager::new());
    assert!(!manager.is_running(Probe::Running));
    assert!(policy.is_shutdown_requested());
}

#[test]
fn stopping_without_a_worker_does_nothing_but_request_the_shutdown() {
    let mut manager = SidecarManager::new();
    let mut policy = RestartPolicy::new();
    assert_eq!(manager.stop(&mut policy), StopPlan::Nothing);
    assert!(policy.is_shutdown_requested());
    assert!(!manager.has_worker());
    let sequence = StopSequence::begin(StopPlan::Nothing);
    assert_eq!(sequence.step(), StopStep::Done);
}

#[test]
fn a_worker_that_exits_in_time_is_not_killed() {
    assert_eq!(STOP_TIMEOUT_MS, 5000);
    assert_eq!(STOP_POLL_INTERVAL_MS, 100);
    let mut sequence = StopSequence::begin(StopPlan::Terminate);
    assert_eq!(sequence.step(), StopStep::Signal);
    sequence.advance(None);
    assert_eq!(sequence.step(), StopStep::Wait { ms: 100 });
    sequence.advance(Some(Probe::Running));
    assert_eq!(sequence.step(), StopStep::Wait { ms: 100 });
    sequence.advance(Some(Probe::Exited));
    assert_eq!(sequence.waited_ms, 200);
    assert_eq!(sequence.step(), StopStep::Join);
    sequence.advance(None);
    assert_eq!(sequence.step(), StopStep::Done);
    sequence.advance(Some(Probe::Running));
    assert_eq!(sequence.step(), StopStep::Done);
    assert_eq!(sequence.phase, StopPhase::Finished);
}

#[test]
fn a_worker_that_stays_is_killed_after_the_timeout() {
    let mut sequence = StopSequence::begin(StopPlan::Terminate);
    let mut steps = Vec::new();
    let mut slept = 0;
    while sequence.step() != StopStep::Done {
        let step = sequence.step();
        steps.push(step);
        match step {
            StopStep::Wait { ms } => {
                slept += ms;
                sequence.advance(Some(Probe::Running));
            }
            _ => sequence.advance(None),
        }
        assert!(steps.len() < 100);
    }
    assert_eq!(slept, 5000);
    assert_eq!(steps.len(), 53);
    assert_eq!(steps[0], StopStep::Signal);
    assert!(steps[1..51].iter().all(|s| *s == StopStep::Wait { ms: 100 }));
    assert_eq!(steps[51], StopStep::Kill);
    assert_eq!(steps[52], StopStep::Join);
}

#[test]
fn a_worker_that_cannot_be_seen_is_killed_at_once() {
    let mut sequence = StopSequence::begin(StopPlan::Terminate);
    sequence.advance(None);
    sequence.advance(Some(Probe::Failed));
    assert_eq!(sequence.step(), StopStep::Kill);
    sequence.advance(None);
    assert_eq!(sequence.step(), StopStep::Join);
}

#[test]
fn a_wait_without_a_look_counts_as_running() {
    let mut sequence = StopSequence {
        phase: StopPhase::Polling,
        waited_ms: 0,
        timeout_ms: 250,
        interval_ms: 100,
    };
    sequence.advance(None);
    assert_eq!(sequence.phase, StopPhase::Polling);
    sequence.advance(None);
    assert_eq!(sequence.phase, StopPhase::Polling);
    sequence.advance(None);
    assert_eq!(sequence.waited_ms, 300);
    assert_eq!(sequence.phase, StopPhase::Killing);
}

#[test]
fn a_sequence_without_patience_kills_after_the_signal() {
    let mut sequence = StopSequence {
        phase: StopPhase::Signalling,
        waited_ms: 17,
        timeout_ms: 0,
        interval_ms: 100,
    };
    sequence.advance(None);
    assert_eq!(sequence.waited_ms, 0);
    assert_eq!(sequence.step(), StopStep::Kill);
}

#[test]
fn waiting_does_not_overflow() {
    let mut sequence = StopSequence {
        phase: StopPhase::Polling,
        waited_ms: u64::MAX - 5,
        timeout_ms: u64::MAX,
        interval_ms: 100,
    };
    sequence.advance(Some(Probe::Running));
    assert_eq!(sequence.waited_ms, u64::MAX);
    assert_eq!(sequence.phase, StopPhase::Killing);
}

#[test]
fn a_lost_worker_is_restarted_after_the_backoff() {
    let backoff = BackoffPolicy::standard();
    let mut policy = RestartPolicy::new();
    let mut state = AppState::default();
    state.connection_status = ConnectionStatus::Connected;

    let plan = SidecarManager::on_stream_end(&mut state, &policy, &backoff);
    assert_eq!(
        plan,
        StreamEndPlan {
            refresh: RefreshPlan { rebuild_menu: true, update_icon: false },
            restart_after_ms: Some(1000),
        }
    );
    assert_eq!(state.connection_status, ConnectionStatus::Error("worker exited".to_string()));

    policy.record_restart();
    policy.record_restart();
    let plan = SidecarManager::on_stream_end(&mut state, &policy, &backoff);
    assert_eq!(plan.restart_after_ms, Some(4000));
}

#[test]
fn a_worker_that_was_stopped_is_not_restarted() {
    let backoff = BackoffPolicy::standard();
    let mut policy = RestartPolicy::new();
    let mut manager = SidecarManager::new();
    manager.spawn(&policy, STARTED).unwrap();
    manager.stop(&mut policy);
    let mut state = AppState::default();
    state.connection_status = ConnectionStatus::Connected;
    let plan = SidecarManager::on_stream_end(&mut state, &policy, &backoff);
    assert_eq!(
        plan,
        StreamEndPlan {
            refresh: RefreshPlan { rebuild_menu: false, update_icon: false },
            restart_after_ms: None,
        }
    );
    assert_eq!(state.connection_status, ConnectionStatus::Connected);
}

#[test]
fn the_delay_follows_the_count_of_restarts() {
    let mut policy = RestartPolicy::new();
    for _ in 0..3 {
        policy.record_restart();
    }
    assert_eq!(policy.count(), 3);
    assert_eq!(BackoffPolicy::standard().delay(policy.count()), 8000);
}
