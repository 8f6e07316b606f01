//! The webhook ingress: routing, per-request decisions, and the response
//! for each store outcome.
//!
//! One logical route is served: `POST /webhook/{podName}/v1/status`. An
//! expired report plans a delete of the named pod, a busy report plans a
//! force merge patch of the configured labels plus the evict-protection
//! annotation, and an idle report plans nothing. The bare root path answers
//! read-only liveness probes. This path never consults leadership: the
//! mutations it plans are idempotent and safe from any replica.

use vstd::prelude::*;
use crate::text::{spec_split, spec_lit, spec_join, lemma_split_len, split_bytes, bytes_eq, lit_bytes, join_bytes};
use crate::labels::{
    spec_label_pairs,
    spec_label_map,
    spec_evict_annotation_key,
    spec_evict_annotation_value,
};
use crate::json::{spec_parse_webhook, parse_webhook_request};
use crate::jibri_schema::JibriBusyStatus;
use crate::store::{
    StoreMutation,
    PodModel,
    busy_patch,
    spec_apply_mutation,
    lemma_delete_idempotent,
    lemma_patch_wins,
    lemma_busy_patch_content,
};

verus! {

/// The request methods the controller distinguishes; everything else is
/// answered with method-not-allowed.
#[derive(Clone, Copy, PartialEq, Eq, Structural, Debug)]
pub enum HttpMethod {
    Get,
    Head,
    Post,
    Options,
    Other,
}

/// A planned HTTP response: its status code and, when the method was not
/// allowed, the joined `Allow` header value.
pub struct HttpReply {
    pub status: u16,
    pub allow: Option<Vec<u8>>,
}

/// What one request leads to: an immediate response, or a store mutation
/// whose outcome decides the response (see [`mutation_reply`]).
pub enum RequestPlan {
    Respond { reply: HttpReply },
    Mutate { mutation: StoreMutation },
}

/// How a store call ended, as the caller reports it back.
#[derive(Clone, Copy, PartialEq, Eq, Structural, Debug)]
pub enum StoreCallResult {
    /// The call succeeded.
    Done,
    /// The store had no pod of that name.
    NotFound,
    /// The call failed for any other reason.
    Failed,
}

/// The methods the root path allows.
pub open spec fn spec_root_allow() -> Seq<Seq<u8>> {
    seq![spec_lit("GET"@), spec_lit("HEAD"@), spec_lit("OPTIONS"@)]
}

/// The methods the webhook route allows.
pub open spec fn spec_webhook_allow() -> Seq<Seq<u8>> {
    seq![spec_lit("POST"@), spec_lit("OPTIONS"@)]
}

/// `r` responds immediately with `status`, and with the `Allow` header
/// joined from `allow` when one is given.
pub open spec fn spec_reply(r: RequestPlan, status: int, allow: Option<Seq<Seq<u8>>>) -> bool {
    match r {
        RequestPlan::Respond { reply } => {
            &&& reply.status == status
            &&& match allow {
                None => reply.allow is None,
                Some(methods) => match reply.allow {
                    Some(a) => a@ == spec_join(methods, spec_lit(", "@)),
                    None => false,
                },
            }
        },
        RequestPlan::Mutate { .. } => false,
    }
}

/// The pieces of the request path between slashes.
pub open spec fn spec_path_segments(path: Seq<u8>) -> Seq<Seq<u8>> {
    spec_split(path, '/' as u8)
}

/// Whether the path begins with a slash (its first piece is empty).
pub open spec fn spec_has_leading_slash(path: Seq<u8>) -> bool {
    spec_path_segments(path)[0] == Seq::<u8>::empty()
}

/// The pod name of a path of the shape `/webhook/{podName}/v1/status`, and
/// nothing for any other path.
pub open spec fn spec_webhook_pod(path: Seq<u8>) -> Option<Seq<u8>> {
    let segs = spec_path_segments(path);
    if {
        &&& segs.len() == 5
        &&& segs[0] == Seq::<u8>::empty()
        &&& segs[1] == spec_lit("webhook"@)
        &&& segs[3] == spec_lit("v1"@)
        &&& segs[4] == spec_lit("status"@)
    } {
        Some(segs[2])
    } else {
        None
    }
}

/// The whole behaviour of one request: which response or mutation `r` is,
/// for every method, path, body and label configuration.
pub open spec fn spec_handle_request(
    method: HttpMethod,
    path: Seq<u8>,
    body: Seq<u8>,
    labels_cfg: Seq<u8>,
    r: RequestPlan,
) -> bool {
    if path == seq!['/' as u8] {
        match method {
            HttpMethod::Get | HttpMethod::Head | HttpMethod::Options => spec_reply(r, 200, None),
            _ => spec_reply(r, 405, Some(spec_root_allow())),
        }
    } else if !spec_has_leading_slash(path) {
        spec_reply(r, 400, None)
    } else {
        match spec_webhook_pod(path) {
            Some(pod) => match method {
                HttpMethod::Post => match spec_parse_webhook(body) {
                    None => spec_reply(r, 400, None),
                    Some(report) => match report.1 {
                        JibriBusyStatus::Expired => r matches RequestPlan::Mutate { mutation }
                            && mutation matches StoreMutation::Delete { name } && name@ == pod,
                        JibriBusyStatus::Busy => r matches RequestPlan::Mutate { mutation }
                            && mutation matches StoreMutation::Patch { name, patch } && name@
                            == pod && patch.label_views() == spec_label_pairs(labels_cfg)
                            && patch.annotation_views() == seq![
                            (spec_evict_annotation_key(), spec_evict_annotation_value()),
                        ],
                        JibriBusyStatus::Idle => spec_reply(r, 200, None),
                    },
                },
                HttpMethod::Options => spec_reply(r, 204, Some(spec_webhook_allow())),
                _ => spec_reply(r, 405, Some(spec_webhook_allow())),
            },
            None => spec_reply(r, 404, None),
        }
    }
}

/// The not-found response.
pub fn not_found() -> (r: HttpReply)
    ensures
        r.status == 404,
        r.allow is None,
{
    HttpReply { status: 404, allow: None }
}

/// The malformed-request response.
pub fn bad_request() -> (r: HttpReply)
    ensures
        r.status == 400,
        r.allow is None,
{
    HttpReply { status: 400, allow: None }
}

/// The forbidden response.
pub fn forbidden() -> (r: HttpReply)
    ensures
        r.status == 403,
        r.allow is None,
{
    HttpReply { status: 403, allow: None }
}

/// The internal-failure response.
pub fn internal_server_error() -> (r: HttpReply)
    ensures
        r.status == 500,
        r.allow is None,
{
    HttpReply { status: 500, allow: None }
}

/// The wrong-method response, with the allowed methods joined into the
/// `Allow` header.
pub fn method_not_allowed(allowed_methods: &Vec<Vec<u8>>) -> (r: HttpReply)
    ensures
        r.status == 405,
        r.allow matches Some(a) && a@ == spec_join(
            allowed_methods@.map_values(|p: Vec<u8>| p@),
            spec_lit(", "@),
        ),
{
    proof {
        reveal_strlit(", ");
    }
    let sep = lit_bytes(", ");
    HttpReply { status: 405, allow: Some(join_bytes(allowed_methods, sep.as_slice())) }
}

/// The response to a preflight request, with the allowed methods joined
/// into the `Allow` header.
pub fn options(allowed_methods: &Vec<Vec<u8>>) -> (r: HttpReply)
    ensures
        r.status == 204,
        r.allow matches Some(a) && a@ == spec_join(
            allowed_methods@.map_values(|p: Vec<u8>| p@),
            spec_lit(", "@),
        ),
{
    proof {
        reveal_strlit(", ");
    }
    let sep = lit_bytes(", ");
    HttpReply { status: 204, allow: Some(join_bytes(allowed_methods, sep.as_slice())) }
}

/// The methods the root path allows, as bytes.
fn root_allow() -> (r: Vec<Vec<u8>>)
    ensures
        r@.map_values(|p: Vec<u8>| p@) == spec_root_allow(),
{
    proof {
        reveal_strlit("GET");
        reveal_strlit("HEAD");
        reveal_strlit("OPTIONS");
    }
    let mut r: Vec<Vec<u8>> = Vec::new();
    r.push(lit_bytes("GET"));
    r.push(lit_bytes("HEAD"));
    r.push(lit_bytes("OPTIONS"));
    proof {
        assert(r@.map_values(|p: Vec<u8>| p@) =~= spec_root_allow());
    }
    r
}

/// The methods the webhook route allows, as bytes.
fn webhook_allow() -> (r: Vec<Vec<u8>>)
    ensures
        r@.map_values(|p: Vec<u8>| p@) == spec_webhook_allow(),
{
    proof {
        reveal_strlit("POST");
        reveal_strlit("OPTIONS");
    }
    let mut r: Vec<Vec<u8>> = Vec::new();
    r.push(lit_bytes("POST"));
    r.push(lit_bytes("OPTIONS"));
    proof {
        assert(r@.map_values(|p: Vec<u8>| p@) =~= spec_webhook_allow());
    }
    r
}

/// Decides one inbound request: the response to send, or the store mutation
/// to perform before responding.
pub fn handle_request(method: HttpMethod, path: &[u8], body: &[u8], labels_cfg: &[u8]) -> (r:
    RequestPlan)
    ensures
        spec_handle_request(method, path@, body@, labels_cfg@, r),
{
    if path.len() == 1 && path[0] == '/' as u8 {
        proof {
            assert(path@ =~= seq!['/' as u8]);
        }
        match method {
            HttpMethod::Get | HttpMethod::Head | HttpMethod::Options => RequestPlan::Respond {
                reply: HttpReply { status: 200, allow: None },
            },
            _ => RequestPlan::Respond { reply: method_not_allowed(&root_allow()) },
        }
    } else {
        proof {
            if path@ == seq!['/' as u8] {
                assert(path@.len() == 1);
                assert(path@[0] == '/' as u8);
            }
            lemma_split_len(path@, '/' as u8);
            reveal_strlit("webhook");
            reveal_strlit("v1");
            reveal_strlit("status");
        }
        let segs = split_bytes(path, '/' as u8);
        let ghost seg_views = segs@.map_values(|p: Vec<u8>| p@);
        if segs[0].len() != 0 {
            proof {
                assert(seg_views[0] == segs@[0]@);
                assert(!spec_has_leading_slash(path@));
            }
            RequestPlan::Respond { reply: bad_request() }
        } else {
            proof {
                assert(seg_views[0] == segs@[0]@);
                assert(segs@[0]@ =~= Seq::<u8>::empty());
                assert(spec_has_leading_slash(path@));
            }
            let is_webhook = segs.len() == 5 && bytes_eq(
                segs[1].as_slice(),
                lit_bytes("webhook").as_slice(),
            ) && bytes_eq(segs[3].as_slice(), lit_bytes("v1").as_slice()) && bytes_eq(
                segs[4].as_slice(),
                lit_bytes("status").as_slice(),
            );
            proof {
                if segs@.len() == 5 {
                    assert(seg_views[1] == segs@[1]@);
                    assert(seg_views[2] == segs@[2]@);
                    assert(seg_views[3] == segs@[3]@);
                    assert(seg_views[4] == segs@[4]@);
                }
                assert(is_webhook <==> spec_webhook_pod(path@) is Some);
            }
            if is_webhook {
                let pod_name = vstd::slice::slice_to_vec(segs[2].as_slice());
                proof {
                    assert(pod_name@ == spec_webhook_pod(path@)->Some_0);
                }
                match method {
                    HttpMethod::Post => match parse_webhook_request(body) {
                        None => RequestPlan::Respond { reply: bad_request() },
                        Some(req) => match req.status.busy_status {
                            JibriBusyStatus::Expired => RequestPlan::Mutate {
                                mutation: StoreMutation::Delete { name: pod_name },
                            },
                            JibriBusyStatus::Busy => RequestPlan::Mutate {
                                mutation: StoreMutation::Patch {
                                    name: pod_name,
                                    patch: busy_patch(labels_cfg),
                                },
                            },
                            JibriBusyStatus::Idle => RequestPlan::Respond {
                                reply: HttpReply { status: 200, allow: None },
                            },
                        },
                    },
                    HttpMethod::Options => RequestPlan::Respond {
                        reply: options(&webhook_allow()),
                    },
                    _ => RequestPlan::Respond { reply: method_not_allowed(&webhook_allow()) },
                }
            } else {
                RequestPlan::Respond { reply: not_found() }
            }
        }
    }
}

/// The status a mutation's outcome is answered with: success for a done
/// call, success for a delete whose pod was already absent (the desired end
/// state holds), and an internal failure otherwise.
pub open spec fn spec_mutation_status(m: StoreMutation, res: StoreCallResult) -> int {
    match m {
        StoreMutation::Delete { .. } => match res {
            StoreCallResult::Done | StoreCallResult::NotFound => 200,
            StoreCallResult::Failed => 500,
        },
        StoreMutation::Patch { .. } => match res {
            StoreCallResult::Done => 200,
            StoreCallResult::NotFound | StoreCallResult::Failed => 500,
        },
    }
}

/// Answers a performed mutation from its outcome.
pub fn mutation_reply(m: &StoreMutation, res: StoreCallResult) -> (r: HttpReply)
    ensures
        r.status == spec_mutation_status(*m, res),
        r.allow is None,
{
    let ok = match m {
        StoreMutation::Delete { .. } => match res {
            StoreCallResult::Done | StoreCallResult::NotFound => true,
            StoreCallResult::Failed => false,
        },
        StoreMutation::Patch { .. } => match res {
            StoreCallResult::Done => true,
            StoreCallResult::NotFound | StoreCallResult::Failed => false,
        },
    };
    if ok {
        HttpReply { status: 200, allow: None }
    } else {
        internal_server_error()
    }
}

/// An expired report plans exactly one mutation, a delete of the pod the
/// path names, whatever the body's other fields or the configuration say.
pub proof fn lemma_expired_post_plans_one_delete(
    path: Seq<u8>,
    body: Seq<u8>,
    labels_cfg: Seq<u8>,
    r: RequestPlan,
)
    ensures
        ({
            &&& spec_handle_request(HttpMethod::Post, path, body, labels_cfg, r)
            &&& path != seq!['/' as u8]
            &&& spec_has_leading_slash(path)
            &&& spec_webhook_pod(path) is Some
            &&& spec_parse_webhook(body) matches Some(report) && report.1
                == JibriBusyStatus::Expired
        }) ==> ({
            &&& r matches RequestPlan::Mutate { mutation }
            &&& mutation matches StoreMutation::Delete { name }
            &&& Some(name@) == spec_webhook_pod(path)
        }),
{
}

/// A busy report plans exactly one mutation, a force patch of the pod the
/// path names, holding the configured label pairs and the evict-protection
/// annotation.
pub proof fn lemma_busy_post_plans_patch(
    path: Seq<u8>,
    body: Seq<u8>,
    labels_cfg: Seq<u8>,
    r: RequestPlan,
)
    ensures
        ({
            &&& spec_handle_request(HttpMethod::Post, path, body, labels_cfg, r)
            &&& path != seq!['/' as u8]
            &&& spec_has_leading_slash(path)
            &&& spec_webhook_pod(path) is Some
            &&& spec_parse_webhook(body) matches Some(report) && report.1 == JibriBusyStatus::Busy
        }) ==> ({
            &&& r matches RequestPlan::Mutate { mutation }
            &&& mutation matches StoreMutation::Patch { name, patch }
            &&& Some(name@) == spec_webhook_pod(path)
            &&& patch.label_views() == spec_label_pairs(labels_cfg)
            &&& patch.annotation_views() == seq![
                (spec_evict_annotation_key(), spec_evict_annotation_value()),
            ]
        }),
{
}

/// An idle report plans no store mutation at all, whatever the path and
/// configuration: the request is answered immediately.
pub proof fn lemma_idle_no_mutation(
    method: HttpMethod,
    path: Seq<u8>,
    body: Seq<u8>,
    labels_cfg: Seq<u8>,
    r: RequestPlan,
)
    ensures
        ({
            &&& spec_handle_request(method, path, body, labels_cfg, r)
            &&& spec_parse_webhook(body) matches Some(report) && report.1 == JibriBusyStatus::Idle
        }) ==> r is Respond,
{
}

/// A repeated identical expired push after the pod is gone is answered as
/// success: the delete's not-found outcome maps to the success status.
pub proof fn lemma_second_expired_push_no_error(m: StoreMutation, res: StoreCallResult)
    ensures
        m is Delete && res is NotFound ==> spec_mutation_status(m, res) == 200,
{
}

/// The whole story of an expired push: it plans exactly one delete of the
/// pod the path names; applying that delete removes the pod from the store;
/// applying the identical delete a second time changes nothing; and the
/// repeat's not-found outcome is answered as success.
pub proof fn lemma_expired_push_idempotent(
    path: Seq<u8>,
    body: Seq<u8>,
    labels_cfg: Seq<u8>,
    r: RequestPlan,
    store: Map<Seq<u8>, PodModel>,
    res: StoreCallResult,
)
    ensures
        ({
            &&& spec_handle_request(HttpMethod::Post, path, body, labels_cfg, r)
            &&& path != seq!['/' as u8]
            &&& spec_has_leading_slash(path)
            &&& spec_webhook_pod(path) is Some
            &&& spec_parse_webhook(body) matches Some(report) && report.1
                == JibriBusyStatus::Expired
        }) ==> ({
            &&& r matches RequestPlan::Mutate { mutation }
            &&& mutation matches StoreMutation::Delete { name }
            &&& Some(name@) == spec_webhook_pod(path)
            &&& !spec_apply_mutation(store, mutation).dom().contains(name@)
            &&& spec_apply_mutation(spec_apply_mutation(store, mutation), mutation)
                == spec_apply_mutation(store, mutation)
            &&& res is NotFound ==> spec_mutation_status(mutation, res) == 200
        }),
{
    if let RequestPlan::Mutate { mutation } = r {
        if mutation is Delete {
            lemma_delete_idempotent(store, mutation);
        }
    }
}

/// The whole story of a busy push: it plans exactly one force patch of the
/// pod the path names, and on a pod the store holds the patch leaves every
/// configured label at its configured (last-wins) value and the
/// evict-protection annotation in place, whatever labels the pod had before.
pub proof fn lemma_busy_push_patch_wins(
    path: Seq<u8>,
    body: Seq<u8>,
    labels_cfg: Seq<u8>,
    r: RequestPlan,
    store: Map<Seq<u8>, PodModel>,
)
    ensures
        ({
            &&& spec_handle_request(HttpMethod::Post, path, body, labels_cfg, r)
            &&& path != seq!['/' as u8]
            &&& spec_has_leading_slash(path)
            &&& spec_webhook_pod(path) is Some
            &&& spec_parse_webhook(body) matches Some(report) && report.1 == JibriBusyStatus::Busy
        }) ==> ({
            &&& r matches RequestPlan::Mutate { mutation }
            &&& mutation matches StoreMutation::Patch { name, patch }
            &&& Some(name@) == spec_webhook_pod(path)
            &&& store.dom().contains(name@) ==> ({
                let pod = spec_apply_mutation(store, mutation)[name@];
                let configured = spec_label_map(spec_label_pairs(labels_cfg));
                &&& forall|i: int|
                    0 <= i < spec_label_pairs(labels_cfg).len() ==> {
                        let k = #[trigger] spec_label_pairs(labels_cfg)[i].0;
                        pod.labels.dom().contains(k) && pod.labels[k] == configured[k]
                    }
                &&& pod.annotations.dom().contains(spec_evict_annotation_key())
                &&& pod.annotations[spec_evict_annotation_key()]
                    == spec_evict_annotation_value()
            })
        }),
{
    if let RequestPlan::Mutate { mutation } = r {
        if let StoreMutation::Patch { name, patch } = mutation {
            if spec_handle_request(HttpMethod::Post, path, body, labels_cfg, r)
                && spec_webhook_pod(path) is Some && (spec_parse_webhook(body)
                matches Some(report) && report.1 == JibriBusyStatus::Busy) {
                lemma_patch_wins(store, mutation);
                lemma_busy_patch_content(patch, labels_cfg);
            }
        }
    }
}

} // verus!
