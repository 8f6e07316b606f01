//! The leader-only reconciliation sweep: which pods to poll, what one poll
//! outcome means for its pod, and when the loop stops.
//!
//! Each tick, if and only if this replica holds leadership, the store is
//! listed and every listed pod with a known IP address is polled on its
//! health endpoint; a pod whose response reports the expired state is
//! deleted. A failed request or a malformed response for one pod plans
//! nothing for it and leaves every other pod's decision untouched.

use vstd::prelude::*;
use crate::json::{spec_parse_health, parse_health_response};
use crate::jibri_schema::JibriBusyStatus;
use crate::store::StoreMutation;
use crate::text::{spec_lit, spec_decimal, lit_bytes, push_bytes, push_decimal};

verus! {

/// One pod as the store lists it; its name and IP are known only once set.
pub struct PodListing {
    pub name: Option<Vec<u8>>,
    pub ip: Option<Vec<u8>>,
}

/// One health poll to perform.
pub struct PollTarget {
    pub name: Vec<u8>,
    pub ip: Vec<u8>,
}

/// The name and IP of every listed pod that has both, in listing order;
/// pods without a name or without an IP are not polled.
pub open spec fn spec_poll_targets(pods: Seq<PodListing>) -> Seq<(Seq<u8>, Seq<u8>)>
    decreases pods.len(),
{
    if pods.len() == 0 {
        Seq::<(Seq<u8>, Seq<u8>)>::empty()
    } else {
        let rest = spec_poll_targets(pods.drop_last());
        match (pods.last().name, pods.last().ip) {
            (Some(n), Some(ip)) => rest.push((n@, ip@)),
            _ => rest,
        }
    }
}

/// Picks the pods to poll out of one listing.
pub fn poll_targets(pods: &Vec<PodListing>) -> (r: Vec<PollTarget>)
    ensures
        r@.map_values(|t: PollTarget| (t.name@, t.ip@)) == spec_poll_targets(pods@),
{
    let mut r: Vec<PollTarget> = Vec::new();
    let mut i: usize = 0;
    proof {
        assert(r@.map_values(|t: PollTarget| (t.name@, t.ip@)) =~= spec_poll_targets(
            pods@.take(0),
        ));
    }
    while i < pods.len()
        invariant
            0 <= i <= pods@.len(),
            r@.map_values(|t: PollTarget| (t.name@, t.ip@)) == spec_poll_targets(
                pods@.take(i as int),
            ),
        decreases pods@.len() - i,
    {
        let ghost old_r = r@;
        let p = &pods[i];
        match (&p.name, &p.ip) {
            (Some(n), Some(ip)) => {
                r.push(
                    PollTarget {
                        name: vstd::slice::slice_to_vec(n.as_slice()),
                        ip: vstd::slice::slice_to_vec(ip.as_slice()),
                    },
                );
            },
            _ => {},
        }
        proof {
            let f = |t: PollTarget| (t.name@, t.ip@);
            assert(pods@.take(i as int + 1).drop_last() =~= pods@.take(i as int));
            assert(pods@.take(i as int + 1).last() == pods@[i as int]);
            if pods@[i as int].name is Some && pods@[i as int].ip is Some {
                assert(r@.map_values(f) =~= old_r.map_values(f).push(f(r@.last())));
            }
        }
        i += 1;
    }
    proof {
        assert(pods@.take(pods@.len() as int) =~= pods@);
    }
    r
}

/// The URI a pod's health endpoint is polled at.
pub open spec fn spec_health_check_uri(ip: Seq<u8>, port: int) -> Seq<u8> {
    spec_lit("http://"@) + ip + spec_lit(":"@) + spec_decimal(port) + spec_lit(
        "/jibri/api/v1.0/health"@,
    )
}

/// Builds the health-poll URI for one pod.
pub fn health_check_uri(ip: &[u8], port: u16) -> (r: Vec<u8>)
    ensures
        r@ == spec_health_check_uri(ip@, port as int),
{
    proof {
        reveal_strlit("http://");
        reveal_strlit(":");
        reveal_strlit("/jibri/api/v1.0/health");
    }
    let mut out = lit_bytes("http://");
    push_bytes(&mut out, ip);
    let colon = lit_bytes(":");
    push_bytes(&mut out, colon.as_slice());
    push_decimal(&mut out, port);
    let path = lit_bytes("/jibri/api/v1.0/health");
    push_bytes(&mut out, path.as_slice());
    proof {
        assert(out@ =~= spec_health_check_uri(ip@, port as int));
    }
    out
}

/// One pod's poll outcome: the response body when a response arrived, and
/// nothing when the request failed.
pub struct PollOutcome {
    pub name: Vec<u8>,
    pub body: Option<Vec<u8>>,
}

/// The bytes of an outcome's body, if any.
pub open spec fn spec_poll_body(o: PollOutcome) -> Option<Seq<u8>> {
    match o.body {
        Some(b) => Some(b@),
        None => None,
    }
}

/// Whether a poll outcome reports the expired state: a response arrived,
/// parsed, and its busy-status is expired.
pub open spec fn spec_poll_expired(body: Option<Seq<u8>>) -> bool {
    match body {
        Some(b) => match spec_parse_health(b) {
            Some(status) => status.0 == JibriBusyStatus::Expired,
            None => false,
        },
        None => false,
    }
}

/// Decides one pod from its poll outcome: plans its deletion exactly when
/// the response parses and reports expired. A failed request or a malformed
/// response plans nothing — the pod is skipped, never the tick.
pub fn check_jibri_status(name: &[u8], body: Option<&[u8]>) -> (r: Option<StoreMutation>)
    ensures
        ({
            let bv = match body {
                Some(b) => Some(b@),
                None => None,
            };
            &&& spec_poll_expired(bv) ==> ({
                &&& r matches Some(m)
                &&& m matches StoreMutation::Delete { name: n }
                &&& n@ == name@
            })
            &&& !spec_poll_expired(bv) ==> r is None
        }),
{
    match body {
        None => None,
        Some(b) => match parse_health_response(b) {
            None => None,
            Some(status) => match status.busy_status {
                JibriBusyStatus::Expired => Some(
                    StoreMutation::Delete { name: vstd::slice::slice_to_vec(name) },
                ),
                _ => None,
            },
        },
    }
}

/// The names the tick deletes: those of the outcomes that report expired,
/// in listing order. Each outcome contributes for itself alone.
pub open spec fn spec_sweep_deletes(outcomes: Seq<PollOutcome>) -> Seq<Seq<u8>>
    decreases outcomes.len(),
{
    if outcomes.len() == 0 {
        Seq::<Seq<u8>>::empty()
    } else {
        let rest = spec_sweep_deletes(outcomes.drop_last());
        if spec_poll_expired(spec_poll_body(outcomes.last())) {
            rest.push(outcomes.last().name@)
        } else {
            rest
        }
    }
}

/// The name a mutation addresses.
pub open spec fn spec_mutation_name(m: StoreMutation) -> Seq<u8> {
    match m {
        StoreMutation::Delete { name } => name@,
        StoreMutation::Patch { name, .. } => name@,
    }
}

/// Decides a whole tick's poll outcomes: one delete per expired outcome and
/// nothing else.
pub fn sweep_actions(outcomes: &Vec<PollOutcome>) -> (r: Vec<StoreMutation>)
    ensures
        r@.map_values(|m: StoreMutation| spec_mutation_name(m)) == spec_sweep_deletes(outcomes@),
        forall|j: int| 0 <= j < r@.len() ==> r@[j] is Delete,
{
    let mut r: Vec<StoreMutation> = Vec::new();
    let mut i: usize = 0;
    proof {
        assert(r@.map_values(|m: StoreMutation| spec_mutation_name(m)) =~= spec_sweep_deletes(
            outcomes@.take(0),
        ));
    }
    while i < outcomes.len()
        invariant
            0 <= i <= outcomes@.len(),
            r@.map_values(|m: StoreMutation| spec_mutation_name(m)) == spec_sweep_deletes(
                outcomes@.take(i as int),
            ),
            forall|j: int| 0 <= j < r@.len() ==> r@[j] is Delete,
        decreases outcomes@.len() - i,
    {
        let ghost old_r = r@;
        let o = &outcomes[i];
        let body = match &o.body {
            Some(b) => Some(b.as_slice()),
            None => None,
        };
        match check_jibri_status(o.name.as_slice(), body) {
            Some(m) => r.push(m),
            None => {},
        }
        proof {
            let f = |m: StoreMutation| spec_mutation_name(m);
            assert(outcomes@.take(i as int + 1).drop_last() =~= outcomes@.take(i as int));
            assert(outcomes@.take(i as int + 1).last() == outcomes@[i as int]);
            if spec_poll_expired(spec_poll_body(outcomes@[i as int])) {
                assert(r@.map_values(f) =~= old_r.map_values(f).push(f(r@.last())));
            }
        }
        i += 1;
    }
    proof {
        assert(outcomes@.take(outcomes@.len() as int) =~= outcomes@);
    }
    r
}

/// Partial-failure isolation: a pod whose outcome reports expired is
/// deleted, whatever the other outcomes of the same tick were — another
/// pod's failed poll never prevents it.
pub proof fn lemma_sweep_isolation(outcomes: Seq<PollOutcome>, i: int)
    requires
        0 <= i < outcomes.len(),
        spec_poll_expired(spec_poll_body(outcomes[i])),
    ensures
        spec_sweep_deletes(outcomes).contains(outcomes[i].name@),
    decreases outcomes.len(),
{
    let deletes = spec_sweep_deletes(outcomes);
    if i == outcomes.len() - 1 {
        assert(deletes.last() == outcomes[i].name@);
        assert(deletes.contains(outcomes[i].name@));
    } else {
        lemma_sweep_isolation(outcomes.drop_last(), i);
        let rest = spec_sweep_deletes(outcomes.drop_last());
        let k = choose|k: int| 0 <= k < rest.len() && rest[k] == outcomes[i].name@;
        assert(deletes[k] == outcomes[i].name@);
    }
}

/// Soundness of the sweep: every planned delete names a pod whose own
/// outcome reported expired.
pub proof fn lemma_sweep_deletes_from_expired(outcomes: Seq<PollOutcome>, j: int)
    requires
        0 <= j < spec_sweep_deletes(outcomes).len(),
    ensures
        exists|i: int|
            0 <= i < outcomes.len() && spec_poll_expired(spec_poll_body(outcomes[i]))
                && outcomes[i].name@ == spec_sweep_deletes(outcomes)[j],
    decreases outcomes.len(),
{
    let deletes = spec_sweep_deletes(outcomes);
    let rest = spec_sweep_deletes(outcomes.drop_last());
    if spec_poll_expired(spec_poll_body(outcomes.last())) && j == deletes.len() - 1 {
        assert(spec_poll_expired(spec_poll_body(outcomes[outcomes.len() - 1])));
        assert(outcomes[outcomes.len() - 1].name@ == deletes[j]);
    } else {
        lemma_sweep_deletes_from_expired(outcomes.drop_last(), j);
        let i = choose|i: int|
            0 <= i < outcomes.drop_last().len() && spec_poll_expired(
                spec_poll_body(outcomes.drop_last()[i]),
            ) && outcomes.drop_last()[i].name@ == rest[j];
        assert(outcomes[i] == outcomes.drop_last()[i]);
    }
}

/// What one sweeper tick does before any outside call is made.
pub struct SweepTickPlan {
    pub sweep: bool,
    pub exit: bool,
}

/// Whether `r` is the plan of a tick under `leader` and `shutdown`.
pub open spec fn spec_sweeper_tick_plan(leader: bool, shutdown: bool, r: SweepTickPlan) -> bool {
    r.sweep == leader && r.exit == shutdown
}

/// Plans one sweeper tick: the store is listed and polled exactly when this
/// replica holds leadership — no store call is planned otherwise — and the
/// loop exits exactly when shutdown was requested, so at most this one tick
/// runs after the flag is set.
pub fn sweeper_tick_plan(leader: bool, shutdown: bool) -> (r: SweepTickPlan)
    ensures
        spec_sweeper_tick_plan(leader, shutdown, r),
{
    SweepTickPlan { sweep: leader, exit: shutdown }
}

/// A tick that does not sweep plans no store call at all: it gathers no
/// outcomes, and an empty outcome set plans no deletes.
pub proof fn lemma_skipped_tick_plans_nothing(leader: bool, shutdown: bool, r: SweepTickPlan)
    ensures
        spec_sweeper_tick_plan(leader, shutdown, r) && !leader ==> !r.sweep,
        spec_sweep_deletes(Seq::<PollOutcome>::empty()) == Seq::<Seq<u8>>::empty(),
{
}

} // verus!
