use jibri_pod_controller::coordinator::{LeaderStep, LeadershipCell, ShutdownFlag, leader_step};
use jibri_pod_controller::store::StoreMutation;
use jibri_pod_controller::sweeper::{
    PodListing, PollOutcome, check_jibri_status, health_check_uri, poll_targets, sweep_actions,
    sweeper_tick_plan,
};

fn poll_body(busy: &str) -> Vec<u8> {
    format!(
        "{{\"status\":{{\"busyStatus\":\"{}\",\"health\":{{\"healthStatus\":\"HEALTHY\"}}}}}}",
        busy
    )
    .into_bytes()
}

#[test]
fn poll_targets_skip_pods_without_name_or_ip() {
    let pods = vec![
        PodListing {
            name: Some(b"pod-a".to_vec()),
            ip: Some(b"10.0.0.1".to_vec()),
        },
        PodListing {
            name: None,
            ip: Some(b"10.0.0.2".to_vec()),
        },
        PodListing {
            name: Some(b"pod-c".to_vec()),
            ip: None,
        },
        PodListing {
            name: Some(b"pod-d".to_vec()),
            ip: Some(b"10.0.0.4".to_vec()),
        },
    ];
    let targets = poll_targets(&pods);
    assert_eq!(targets.len(), 2);
    assert_eq!(targets[0].name, b"pod-a".to_vec());
    assert_eq!(targets[0].ip, b"10.0.0.1".to_vec());
    assert_eq!(targets[1].name, b"pod-d".to_vec());
    assert_eq!(targets[1].ip, b"10.0.0.4".to_vec());
}

#[test]
fn health_check_uri_is_exact() {
    assert_eq!(
        health_check_uri(b"10.0.0.3", 8080),
        b"http://10.0.0.3:8080/jibri/api/v1.0/health".to_vec()
    );
    assert_eq!(
        health_check_uri(b"192.168.1.9", 0),
        b"http://192.168.1.9:0/jibri/api/v1.0/health".to_vec()
    );
    assert_eq!(
        health_check_uri(b"10.1.2.3", 65535),
        b"http://10.1.2.3:65535/jibri/api/v1.0/health".to_vec()
    );
}

#[test]
fn expired_poll_deletes_pod() {
    let body = poll_body("EXPIRED");
    match check_jibri_status(b"pod-a", Some(&body)) {
        Some(StoreMutation::Delete { name }) => assert_eq!(name, b"pod-a".to_vec()),
        _ => panic!("an expired poll must plan the pod's deletion"),
    }
    assert!(check_jibri_status(b"pod-a", Some(&poll_body("BUSY"))).is_none());
    assert!(check_jibri_status(b"pod-a", Some(&poll_body("IDLE"))).is_none());
    assert!(check_jibri_status(b"pod-a", Some(b"garbage")).is_none());
    assert!(check_jibri_status(b"pod-a", None).is_none());
}

#[test]
fn failed_poll_does_not_prevent_other_deletions() {
    // One pod's poll timed out (no body), another reports expired, a third
    // answers malformed: only the expired one is deleted, and the failures
    // abort nothing.
    let outcomes = vec![
        PollOutcome {
            name: b"pod-a".to_vec(),
            body: None,
        },
        PollOutcome {
            name: b"pod-b".to_vec(),
            body: Some(poll_body("EXPIRED")),
        },
        PollOutcome {
            name: b"pod-c".to_vec(),
            body: Some(b"{bad".to_vec()),
        },
    ];
    let actions = sweep_actions(&outcomes);
    assert_eq!(actions.len(), 1);
    match &actions[0] {
        StoreMutation::Delete { name } => assert_eq!(name, &b"pod-b".to_vec()),
        _ => panic!("the sweep must plan deletes only"),
    }
}

#[test]
fn sweep_tick_completes_with_expired_and_timed_out_pod() {
    // Leader this tick: the sweep runs; one listed pod reports expired and
    // is deleted, the other pod's poll failed and the tick still completes.
    let plan = sweeper_tick_plan(true, false);
    assert!(plan.sweep);
    assert!(!plan.exit);
    let outcomes = vec![
        PollOutcome {
            name: b"pod-1".to_vec(),
            body: Some(poll_body("EXPIRED")),
        },
        PollOutcome {
            name: b"pod-2".to_vec(),
            body: None,
        },
    ];
    let actions = sweep_actions(&outcomes);
    assert_eq!(actions.len(), 1);
    match &actions[0] {
        StoreMutation::Delete { name } => assert_eq!(name, &b"pod-1".to_vec()),
        _ => panic!("the sweep must delete the expired pod"),
    }
}

#[test]
fn sweeper_never_sweeps_without_leadership() {
    let plan = sweeper_tick_plan(false, false);
    assert!(!plan.sweep);
    assert!(!plan.exit);
    let plan = sweeper_tick_plan(false, true);
    assert!(!plan.sweep);
    assert!(plan.exit);
}

#[test]
fn shutdown_stops_sweeper_after_one_tick() {
    let plan = sweeper_tick_plan(true, true);
    assert!(plan.sweep);
    assert!(plan.exit);
}

#[test]
fn leader_step_publishes_before_exit_decision() {
    match leader_step(Some(true), false) {
        LeaderStep::Continue { publish, exit } => {
            assert!(publish);
            assert!(!exit);
        }
        LeaderStep::Fatal => panic!("a successful lease call is not fatal"),
    }
    match leader_step(Some(false), true) {
        LeaderStep::Continue { publish, exit } => {
            assert!(!publish);
            assert!(exit);
        }
        LeaderStep::Fatal => panic!("a successful lease call is not fatal"),
    }
}

#[test]
fn failed_lease_call_is_fatal() {
    assert!(matches!(leader_step(None, false), LeaderStep::Fatal));
    assert!(matches!(leader_step(None, true), LeaderStep::Fatal));
}

#[test]
fn leadership_cell_keeps_latest_value_only() {
    let mut cell = LeadershipCell::new();
    assert!(!cell.current());
    cell.publish(true);
    assert!(cell.current());
    cell.publish(false);
    cell.publish(true);
    assert!(cell.current());
}

#[test]
fn shutdown_flag_is_monotonic() {
    let mut flag = ShutdownFlag::new();
    assert!(!flag.is_requested());
    flag.request();
    assert!(flag.is_requested());
    flag.request();
    assert!(flag.is_requested());
}
