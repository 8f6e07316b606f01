//! Parsing of the two JSON documents the controller receives: the inbound
//! webhook payload and the health-poll response.
//!
//! The JSON text is decoded by `serde_json`; what it extracts from a given
//! byte string is a function of those bytes alone, so each extraction is
//! named by an uninterpreted spec function and performed behind a trusted
//! wrapper. Everything after extraction — recognising the wire tokens and
//! building the typed report — is verified.

use vstd::prelude::*;
use crate::jibri_schema::{
    JibriBusyStatus,
    JibriHealthStatus,
    JibriHealth,
    JibriStatus,
    JibriWebhookRequest,
    spec_busy_from_wire,
    spec_health_from_wire,
    busy_status_from_wire,
    health_status_from_wire,
};

verus! {

/// The three strings a webhook body yields when it is a JSON object of the
/// shape `{ "jibriId": s, "status": { "busyStatus": s, "health":
/// { "healthStatus": s } } }`: the worker id, the busy token and the health
/// token; nothing when the body is not of that shape.
pub uninterp spec fn spec_webhook_fields(body: Seq<u8>) -> Option<(Seq<u8>, Seq<u8>, Seq<u8>)>;

/// The two strings a health-poll response yields when it is a JSON object of
/// the shape `{ "status": { "busyStatus": s, "health": { "healthStatus": s } } }`:
/// the busy token and the health token; nothing otherwise.
pub uninterp spec fn spec_health_fields(body: Seq<u8>) -> Option<(Seq<u8>, Seq<u8>)>;

/// Relies on `serde_json::from_slice`, `Value::get` and `Value::as_str`:
/// decodes the body as JSON and picks the `jibriId`, `status.busyStatus` and
/// `status.health.healthStatus` strings, a function of the bytes alone.
#[verifier::external_body]
fn extract_webhook_fields(body: &[u8]) -> (r: Option<(Vec<u8>, Vec<u8>, Vec<u8>)>)
    ensures
        match r {
            Some(t) => spec_webhook_fields(body@) == Some((t.0@, t.1@, t.2@)),
            None => spec_webhook_fields(body@) is None,
        },
{
    let v: serde_json::Value = serde_json::from_slice(body).ok()?;
    let id = v.get("jibriId")?.as_str()?.as_bytes().to_vec();
    let status = v.get("status")?;
    let busy = status.get("busyStatus")?.as_str()?.as_bytes().to_vec();
    let health = status.get("health")?.get("healthStatus")?.as_str()?.as_bytes().to_vec();
    Some((id, busy, health))
}

/// Relies on `serde_json::from_slice`, `Value::get` and `Value::as_str`:
/// decodes the body as JSON and picks the `status.busyStatus` and
/// `status.health.healthStatus` strings, a function of the bytes alone.
#[verifier::external_body]
fn extract_health_fields(body: &[u8]) -> (r: Option<(Vec<u8>, Vec<u8>)>)
    ensures
        match r {
            Some(t) => spec_health_fields(body@) == Some((t.0@, t.1@)),
            None => spec_health_fields(body@) is None,
        },
{
    let v: serde_json::Value = serde_json::from_slice(body).ok()?;
    let status = v.get("status")?;
    let busy = status.get("busyStatus")?.as_str()?.as_bytes().to_vec();
    let health = status.get("health")?.get("healthStatus")?.as_str()?.as_bytes().to_vec();
    Some((busy, health))
}

/// What a webhook body denotes: the worker id and the two enum values, when
/// the body has the webhook JSON shape and both tokens are known; nothing
/// otherwise.
pub open spec fn spec_parse_webhook(body: Seq<u8>) -> Option<
    (Seq<u8>, JibriBusyStatus, JibriHealthStatus),
> {
    match spec_webhook_fields(body) {
        Some(t) => match (spec_busy_from_wire(t.1), spec_health_from_wire(t.2)) {
            (Some(b), Some(h)) => Some((t.0, b, h)),
            _ => None,
        },
        None => None,
    }
}

/// What a health-poll response denotes: the two enum values, when the body
/// has the poll JSON shape and both tokens are known; nothing otherwise.
pub open spec fn spec_parse_health(body: Seq<u8>) -> Option<(JibriBusyStatus, JibriHealthStatus)> {
    match spec_health_fields(body) {
        Some(t) => match (spec_busy_from_wire(t.0), spec_health_from_wire(t.1)) {
            (Some(b), Some(h)) => Some((b, h)),
            _ => None,
        },
        None => None,
    }
}

/// Parses a webhook body into a typed report; `None` exactly on malformed
/// bodies.
pub fn parse_webhook_request(body: &[u8]) -> (r: Option<JibriWebhookRequest>)
    ensures
        match r {
            Some(req) => spec_parse_webhook(body@) == Some(
                (req.jibri_id@, req.status.busy_status, req.status.health.health_status),
            ),
            None => spec_parse_webhook(body@) is None,
        },
{
    match extract_webhook_fields(body) {
        None => None,
        Some((id, busy, health)) => {
            let b = busy_status_from_wire(busy.as_slice());
            let h = health_status_from_wire(health.as_slice());
            match (b, h) {
                (Some(busy_status), Some(health_status)) => Some(
                    JibriWebhookRequest {
                        jibri_id: id,
                        status: JibriStatus { busy_status, health: JibriHealth { health_status } },
                    },
                ),
                _ => None,
            }
        },
    }
}

/// Parses a health-poll response into the reported status; `None` exactly on
/// malformed bodies.
pub fn parse_health_response(body: &[u8]) -> (r: Option<JibriStatus>)
    ensures
        match r {
            Some(status) => spec_parse_health(body@) == Some(
                (status.busy_status, status.health.health_status),
            ),
            None => spec_parse_health(body@) is None,
        },
{
    match extract_health_fields(body) {
        None => None,
        Some((busy, health)) => {
            let b = busy_status_from_wire(busy.as_slice());
            let h = health_status_from_wire(health.as_slice());
            match (b, h) {
                (Some(busy_status), Some(health_status)) => Some(
                    JibriStatus { busy_status, health: JibriHealth { health_status } },
                ),
                _ => None,
            }
        },
    }
}

} // verus!
