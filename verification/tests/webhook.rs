use jibri_pod_controller::jibri_schema::{
    JibriBusyStatus, JibriHealthStatus, busy_status_from_wire, busy_status_to_wire,
    health_status_from_wire, health_status_to_wire,
};
use jibri_pod_controller::json::{parse_health_response, parse_webhook_request};
use jibri_pod_controller::server::{
    HttpMethod, RequestPlan, StoreCallResult, handle_request, mutation_reply,
};
use jibri_pod_controller::store::StoreMutation;

fn webhook_body(busy: &str, health: &str) -> Vec<u8> {
    format!(
        "{{\"jibriId\":\"jibri-1\",\"status\":{{\"busyStatus\":\"{}\",\"health\":{{\"healthStatus\":\"{}\"}}}}}}",
        busy, health
    )
    .into_bytes()
}

fn health_body(busy: &str, health: &str) -> Vec<u8> {
    format!(
        "{{\"status\":{{\"busyStatus\":\"{}\",\"health\":{{\"healthStatus\":\"{}\"}}}}}}",
        busy, health
    )
    .into_bytes()
}

#[test]
fn wire_round_trip_all_six_combinations() {
    let busies = [
        JibriBusyStatus::Idle,
        JibriBusyStatus::Busy,
        JibriBusyStatus::Expired,
    ];
    let healths = [JibriHealthStatus::Healthy, JibriHealthStatus::Unhealthy];
    for b in busies {
        assert_eq!(busy_status_from_wire(&busy_status_to_wire(b)), Some(b));
        for h in healths {
            assert_eq!(health_status_from_wire(&health_status_to_wire(h)), Some(h));
            let body = webhook_body(
                std::str::from_utf8(&busy_status_to_wire(b)).unwrap(),
                std::str::from_utf8(&health_status_to_wire(h)).unwrap(),
            );
            let req = parse_webhook_request(&body).expect("valid body must parse");
            assert_eq!(req.status.busy_status, b);
            assert_eq!(req.status.health.health_status, h);
            assert_eq!(req.jibri_id, b"jibri-1".to_vec());

            let poll = health_body(
                std::str::from_utf8(&busy_status_to_wire(b)).unwrap(),
                std::str::from_utf8(&health_status_to_wire(h)).unwrap(),
            );
            let status = parse_health_response(&poll).expect("valid poll body must parse");
            assert_eq!(status.busy_status, b);
            assert_eq!(status.health.health_status, h);
        }
    }
}

#[test]
fn wire_tokens_are_exact() {
    assert_eq!(busy_status_to_wire(JibriBusyStatus::Idle), b"IDLE".to_vec());
    assert_eq!(busy_status_to_wire(JibriBusyStatus::Busy), b"BUSY".to_vec());
    assert_eq!(
        busy_status_to_wire(JibriBusyStatus::Expired),
        b"EXPIRED".to_vec()
    );
    assert_eq!(
        health_status_to_wire(JibriHealthStatus::Healthy),
        b"HEALTHY".to_vec()
    );
    assert_eq!(
        health_status_to_wire(JibriHealthStatus::Unhealthy),
        b"UNHEALTHY".to_vec()
    );
    assert_eq!(busy_status_from_wire(b"idle"), None);
    assert_eq!(busy_status_from_wire(b""), None);
    assert_eq!(health_status_from_wire(b"WELL"), None);
}

#[test]
fn parse_health_response_flattened_shape() {
    let body = health_body("EXPIRED", "UNHEALTHY");
    let status = parse_health_response(&body).expect("valid poll body must parse");
    assert_eq!(status.busy_status, JibriBusyStatus::Expired);
    assert_eq!(status.health.health_status, JibriHealthStatus::Unhealthy);
    assert_eq!(parse_health_response(b"not json"), None);
    assert_eq!(parse_health_response(b"{}"), None);
}

#[test]
fn expired_push_deletes_named_pod() {
    let body = webhook_body("EXPIRED", "HEALTHY");
    let plan = handle_request(
        HttpMethod::Post,
        b"/webhook/pod-7/v1/status",
        &body,
        b"app=worker",
    );
    match plan {
        RequestPlan::Mutate {
            mutation: StoreMutation::Delete { ref name },
        } => assert_eq!(name, &b"pod-7".to_vec()),
        _ => panic!("expired push must plan exactly a delete of pod-7"),
    }
    let mutation = match plan {
        RequestPlan::Mutate { mutation } => mutation,
        _ => unreachable!(),
    };
    let reply = mutation_reply(&mutation, StoreCallResult::Done);
    assert_eq!(reply.status, 200);
    assert!(reply.allow.is_none());
}

#[test]
fn second_expired_push_after_deletion_is_success() {
    let body = webhook_body("EXPIRED", "HEALTHY");
    let plan = handle_request(
        HttpMethod::Post,
        b"/webhook/pod-7/v1/status",
        &body,
        b"app=worker",
    );
    let mutation = match plan {
        RequestPlan::Mutate { mutation } => mutation,
        _ => panic!("expired push must plan a delete"),
    };
    // The pod is already gone: the store reports not-found, which is the
    // desired end state and must be answered as success.
    let reply = mutation_reply(&mutation, StoreCallResult::NotFound);
    assert_eq!(reply.status, 200);
}

#[test]
fn busy_push_patches_labels_and_annotation() {
    let body = webhook_body("BUSY", "HEALTHY");
    let plan = handle_request(
        HttpMethod::Post,
        b"/webhook/pod-3/v1/status",
        &body,
        b"app=worker,tier=hot",
    );
    match plan {
        RequestPlan::Mutate {
            mutation: StoreMutation::Patch { name, patch },
        } => {
            assert_eq!(name, b"pod-3".to_vec());
            assert_eq!(
                patch.labels,
                vec![
                    (b"app".to_vec(), b"worker".to_vec()),
                    (b"tier".to_vec(), b"hot".to_vec()),
                ]
            );
            assert_eq!(
                patch.annotations,
                vec![(
                    b"cluster-autoscaler.kubernetes.io/safe-to-evict".to_vec(),
                    b"false".to_vec(),
                )]
            );
        }
        _ => panic!("busy push must plan exactly a patch of pod-3"),
    }
}

#[test]
fn idle_push_mutates_nothing() {
    let body = webhook_body("IDLE", "HEALTHY");
    let plan = handle_request(
        HttpMethod::Post,
        b"/webhook/pod-9/v1/status",
        &body,
        b"app=worker",
    );
    match plan {
        RequestPlan::Respond { reply } => {
            assert_eq!(reply.status, 200);
            assert!(reply.allow.is_none());
        }
        RequestPlan::Mutate { .. } => panic!("idle push must not plan any store mutation"),
    }
}

#[test]
fn malformed_body_is_client_error() {
    for body in [
        &b"not json at all"[..],
        b"{}",
        b"{\"jibriId\":\"x\",\"status\":{\"busyStatus\":\"NAPPING\",\"health\":{\"healthStatus\":\"HEALTHY\"}}}",
        b"{\"jibriId\":7,\"status\":{\"busyStatus\":\"IDLE\",\"health\":{\"healthStatus\":\"HEALTHY\"}}}",
    ] {
        let plan = handle_request(HttpMethod::Post, b"/webhook/pod-1/v1/status", body, b"a=b");
        match plan {
            RequestPlan::Respond { reply } => assert_eq!(reply.status, 400),
            _ => panic!("a malformed body must be answered 400 with no mutation"),
        }
    }
}

#[test]
fn unknown_paths_are_not_found() {
    let body = webhook_body("EXPIRED", "HEALTHY");
    for path in [
        &b"/webhook/pod-1/v2/status"[..],
        b"/webhook/pod-1/v1/health",
        b"/other",
        b"/webhook/pod-1/v1/status/extra",
        b"",
    ] {
        let plan = handle_request(HttpMethod::Post, path, &body, b"a=b");
        match plan {
            RequestPlan::Respond { reply } => assert_eq!(reply.status, 404),
            _ => panic!("unknown path must be answered 404 with no mutation"),
        }
    }
}

#[test]
fn path_without_leading_slash_is_bad_request() {
    let plan = handle_request(HttpMethod::Post, b"webhook/pod/v1/status", b"{}", b"a=b");
    match plan {
        RequestPlan::Respond { reply } => assert_eq!(reply.status, 400),
        _ => panic!("a path without a leading slash must be answered 400"),
    }
}

#[test]
fn wrong_method_on_webhook_route_lists_allowed() {
    let plan = handle_request(HttpMethod::Get, b"/webhook/pod-1/v1/status", b"", b"a=b");
    match plan {
        RequestPlan::Respond { reply } => {
            assert_eq!(reply.status, 405);
            assert_eq!(reply.allow, Some(b"POST, OPTIONS".to_vec()));
        }
        _ => panic!("wrong method must be answered 405"),
    }
}

#[test]
fn options_on_webhook_route_is_no_content() {
    let plan = handle_request(HttpMethod::Options, b"/webhook/pod-1/v1/status", b"", b"a=b");
    match plan {
        RequestPlan::Respond { reply } => {
            assert_eq!(reply.status, 204);
            assert_eq!(reply.allow, Some(b"POST, OPTIONS".to_vec()));
        }
        _ => panic!("preflight must be answered 204"),
    }
}

#[test]
fn root_path_answers_probes() {
    for method in [HttpMethod::Get, HttpMethod::Head, HttpMethod::Options] {
        let plan = handle_request(method, b"/", b"", b"a=b");
        match plan {
            RequestPlan::Respond { reply } => {
                assert_eq!(reply.status, 200);
                assert!(reply.allow.is_none());
            }
            _ => panic!("root probe must be answered 200"),
        }
    }
    let plan = handle_request(HttpMethod::Post, b"/", b"", b"a=b");
    match plan {
        RequestPlan::Respond { reply } => {
            assert_eq!(reply.status, 405);
            assert_eq!(reply.allow, Some(b"GET, HEAD, OPTIONS".to_vec()));
        }
        _ => panic!("root with a write method must be answered 405"),
    }
}

#[test]
fn patch_failure_is_internal_error() {
    let body = webhook_body("BUSY", "HEALTHY");
    let plan = handle_request(HttpMethod::Post, b"/webhook/pod-3/v1/status", &body, b"a=b");
    let mutation = match plan {
        RequestPlan::Mutate { mutation } => mutation,
        _ => panic!("busy push must plan a patch"),
    };
    assert_eq!(mutation_reply(&mutation, StoreCallResult::Failed).status, 500);
    assert_eq!(
        mutation_reply(&mutation, StoreCallResult::NotFound).status,
        500
    );
    assert_eq!(mutation_reply(&mutation, StoreCallResult::Done).status, 200);
}
