use now_playing::backoff::BackoffPolicy;
use now_playing::restart::RestartPolicy;
use now_playing::supervisor::SidecarManager;
use now_playing::types::{AppState, SidecarMessage};

#[test]
fn standard_policy_doubles_until_the_cap() {
    let policy = BackoffPolicy::standard();
    assert_eq!(policy.delay(0), 1000);
    assert_eq!(policy.delay(1), 2000);
    assert_eq!(policy.delay(2), 4000);
    assert_eq!(policy.delay(3), 8000);
    assert_eq!(policy.delay(4), 16000);
    assert_eq!(policy.delay(5), 30000);
    assert_eq!(policy.delay(6), 30000);
    assert_eq!(policy.delay(u32::MAX), 30000);
}

#[test]
fn delay_never_shrinks_and_never_exceeds_the_cap() {
    let policy = BackoffPolicy::new(250, 3, 60_000).unwrap();
    let mut last = 0;
    for failures in 0..40 {
        let delay = policy.delay(failures);
        assert!(delay >= last);
        assert!(delay <= 60_000);
        last = delay;
    }
    assert_eq!(policy.delay(0), 250);
    assert_eq!(policy.delay(1), 750);
    assert_eq!(policy.delay(4), 20_250);
    assert_eq!(policy.delay(5), 60_000);
}

#[test]
fn delay_survives_products_beyond_the_machine_word() {
    let policy = BackoffPolicy { initial_ms: u64::MAX / 2, multiplier: u64::MAX, max_ms: u64::MAX };
    assert_eq!(policy.delay(0), u64::MAX / 2);
    assert_eq!(policy.delay(1), u64::MAX);
    assert_eq!(policy.delay(1000), u64::MAX);
}

#[test]
fn delay_of_degenerate_policies_follows_the_formula() {
    let flat = BackoffPolicy { initial_ms: 700, multiplier: 1, max_ms: 5000 };
    assert_eq!(flat.delay(0), 700);
    assert_eq!(flat.delay(u32::MAX), 700);

    let vanishing = BackoffPolicy { initial_ms: 700, multiplier: 0, max_ms: 5000 };
    assert_eq!(vanishing.delay(0), 700);
    assert_eq!(vanishing.delay(1), 0);
    assert_eq!(vanishing.delay(9), 0);

    let zero = BackoffPolicy { initial_ms: 0, multiplier: 7, max_ms: 5000 };
    assert_eq!(zero.delay(0), 0);
    assert_eq!(zero.delay(12), 0);

    let above = BackoffPolicy { initial_ms: 9000, multiplier: 2, max_ms: 5000 };
    assert_eq!(above.delay(0), 5000);
    assert_eq!(above.delay(3), 5000);
}

#[test]
fn new_accepts_only_policies_that_start_at_the_initial_delay_and_never_shrink() {
    assert_eq!(
        BackoffPolicy::new(1000, 2, 30000),
        Some(BackoffPolicy { initial_ms: 1000, multiplier: 2, max_ms: 30000 })
    );
    assert_eq!(BackoffPolicy::new(5, 1, 5), Some(BackoffPolicy { initial_ms: 5, multiplier: 1, max_ms: 5 }));
    assert_eq!(BackoffPolicy::new(1000, 0, 30000), None);
    assert_eq!(BackoffPolicy::new(30001, 2, 30000), None);
}

#[test]
fn connected_status_resets_the_count_and_the_delay() {
    let backoff = BackoffPolicy::standard();
    let mut policy = RestartPolicy::new();
    let mut state = AppState::default();
    policy.record_restart();
    policy.record_restart();
    policy.record_restart();
    assert_eq!(policy.count(), 3);
    assert_eq!(backoff.delay(policy.count()), 8000);

    let status = SidecarMessage::Status { state: "discovering".to_string(), message: None };
    SidecarManager::handle_message(status, &mut state, &mut policy, 10);
    assert_eq!(policy.count(), 3);

    let status = SidecarMessage::Status { state: "connected".to_string(), message: None };
    SidecarManager::handle_message(status, &mut state, &mut policy, 20);
    assert_eq!(policy.count(), 0);
    assert_eq!(backoff.delay(policy.count()), backoff.initial_ms);
}
