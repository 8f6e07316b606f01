//! The status model a worker reports about itself, and its wire form.
//!
//! On the wire the two enums are upper-case tokens (`"IDLE"`, `"BUSY"`,
//! `"EXPIRED"`; `"HEALTHY"`, `"UNHEALTHY"`); internally they are plain enums.
//! The boundary translates and never exposes the wire casing inward.

use vstd::prelude::*;

verus! {

/// Whether a worker is idle, actively working, or finished and eligible for
/// removal.
#[derive(Clone, Copy, PartialEq, Eq, Structural, Debug)]
pub enum JibriBusyStatus {
    Idle,
    Busy,
    Expired,
}

/// The worker's self-reported health; carried alongside the busy-status but
/// not independently actionable in this controller.
#[derive(Clone, Copy, PartialEq, Eq, Structural, Debug)]
pub enum JibriHealthStatus {
    Healthy,
    Unhealthy,
}

/// The `health` object of a status report.
#[derive(Clone, Copy, PartialEq, Eq, Structural, Debug)]
pub struct JibriHealth {
    pub health_status: JibriHealthStatus,
}

/// The `status` object of a status report.
#[derive(Clone, Copy, PartialEq, Eq, Structural, Debug)]
pub struct JibriStatus {
    pub busy_status: JibriBusyStatus,
    pub health: JibriHealth,
}

/// One inbound webhook payload: the reporting worker's identifier and its
/// status object.
#[derive(Debug)]
pub struct JibriWebhookRequest {
    pub jibri_id: Vec<u8>,
    pub status: JibriStatus,
}

/// The wire token for a busy-status.
pub open spec fn spec_busy_to_wire(b: JibriBusyStatus) -> Seq<u8> {
    match b {
        JibriBusyStatus::Idle => seq!['I' as u8, 'D' as u8, 'L' as u8, 'E' as u8],
        JibriBusyStatus::Busy => seq!['B' as u8, 'U' as u8, 'S' as u8, 'Y' as u8],
        JibriBusyStatus::Expired => seq![
            'E' as u8,
            'X' as u8,
            'P' as u8,
            'I' as u8,
            'R' as u8,
            'E' as u8,
            'D' as u8,
        ],
    }
}

/// The busy-status a wire token denotes, if any.
pub open spec fn spec_busy_from_wire(s: Seq<u8>) -> Option<JibriBusyStatus> {
    if s == spec_busy_to_wire(JibriBusyStatus::Idle) {
        Some(JibriBusyStatus::Idle)
    } else if s == spec_busy_to_wire(JibriBusyStatus::Busy) {
        Some(JibriBusyStatus::Busy)
    } else if s == spec_busy_to_wire(JibriBusyStatus::Expired) {
        Some(JibriBusyStatus::Expired)
    } else {
        None
    }
}

/// The wire token for a health-status.
pub open spec fn spec_health_to_wire(h: JibriHealthStatus) -> Seq<u8> {
    match h {
        JibriHealthStatus::Healthy => seq![
            'H' as u8,
            'E' as u8,
            'A' as u8,
            'L' as u8,
            'T' as u8,
            'H' as u8,
            'Y' as u8,
        ],
        JibriHealthStatus::Unhealthy => seq![
            'U' as u8,
            'N' as u8,
            'H' as u8,
            'E' as u8,
            'A' as u8,
            'L' as u8,
            'T' as u8,
            'H' as u8,
            'Y' as u8,
        ],
    }
}

/// The health-status a wire token denotes, if any.
pub open spec fn spec_health_from_wire(s: Seq<u8>) -> Option<JibriHealthStatus> {
    if s == spec_health_to_wire(JibriHealthStatus::Healthy) {
        Some(JibriHealthStatus::Healthy)
    } else if s == spec_health_to_wire(JibriHealthStatus::Unhealthy) {
        Some(JibriHealthStatus::Unhealthy)
    } else {
        None
    }
}

/// Renders a busy-status as its wire token.
pub fn busy_status_to_wire(b: JibriBusyStatus) -> (r: Vec<u8>)
    ensures
        r@ == spec_busy_to_wire(b),
{
    let mut out: Vec<u8> = Vec::new();
    match b {
        JibriBusyStatus::Idle => {
            out.push('I' as u8);
            out.push('D' as u8);
            out.push('L' as u8);
            out.push('E' as u8);
        },
        JibriBusyStatus::Busy => {
            out.push('B' as u8);
            out.push('U' as u8);
            out.push('S' as u8);
            out.push('Y' as u8);
        },
        JibriBusyStatus::Expired => {
            out.push('E' as u8);
            out.push('X' as u8);
            out.push('P' as u8);
            out.push('I' as u8);
            out.push('R' as u8);
            out.push('E' as u8);
            out.push('D' as u8);
        },
    }
    proof {
        assert(out@ =~= spec_busy_to_wire(b));
    }
    out
}

/// Renders a health-status as its wire token.
pub fn health_status_to_wire(h: JibriHealthStatus) -> (r: Vec<u8>)
    ensures
        r@ == spec_health_to_wire(h),
{
    let mut out: Vec<u8> = Vec::new();
    match h {
        JibriHealthStatus::Healthy => {
            out.push('H' as u8);
            out.push('E' as u8);
            out.push('A' as u8);
            out.push('L' as u8);
            out.push('T' as u8);
            out.push('H' as u8);
            out.push('Y' as u8);
        },
        JibriHealthStatus::Unhealthy => {
            out.push('U' as u8);
            out.push('N' as u8);
            out.push('H' as u8);
            out.push('E' as u8);
            out.push('A' as u8);
            out.push('L' as u8);
            out.push('T' as u8);
            out.push('H' as u8);
            out.push('Y' as u8);
        },
    }
    proof {
        assert(out@ =~= spec_health_to_wire(h));
    }
    out
}

/// Parses a wire token as a busy-status.
pub fn busy_status_from_wire(s: &[u8]) -> (r: Option<JibriBusyStatus>)
    ensures
        r == spec_busy_from_wire(s@),
{
    let idle = busy_status_to_wire(JibriBusyStatus::Idle);
    let busy = busy_status_to_wire(JibriBusyStatus::Busy);
    let expired = busy_status_to_wire(JibriBusyStatus::Expired);
    if crate::text::bytes_eq(s, idle.as_slice()) {
        Some(JibriBusyStatus::Idle)
    } else if crate::text::bytes_eq(s, busy.as_slice()) {
        Some(JibriBusyStatus::Busy)
    } else if crate::text::bytes_eq(s, expired.as_slice()) {
        Some(JibriBusyStatus::Expired)
    } else {
        None
    }
}

/// Parses a wire token as a health-status.
pub fn health_status_from_wire(s: &[u8]) -> (r: Option<JibriHealthStatus>)
    ensures
        r == spec_health_from_wire(s@),
{
    let healthy = health_status_to_wire(JibriHealthStatus::Healthy);
    let unhealthy = health_status_to_wire(JibriHealthStatus::Unhealthy);
    if crate::text::bytes_eq(s, healthy.as_slice()) {
        Some(JibriHealthStatus::Healthy)
    } else if crate::text::bytes_eq(s, unhealthy.as_slice()) {
        Some(JibriHealthStatus::Unhealthy)
    } else {
        None
    }
}

/// Round trip: a status pair rendered to its wire tokens and parsed back
/// yields the identical enum values, for every combination.
pub proof fn lemma_wire_round_trip(b: JibriBusyStatus, h: JibriHealthStatus)
    ensures
        spec_busy_from_wire(spec_busy_to_wire(b)) == Some(b),
        spec_health_from_wire(spec_health_to_wire(h)) == Some(h),
{
    assert(spec_busy_to_wire(JibriBusyStatus::Busy)[0] != spec_busy_to_wire(
        JibriBusyStatus::Idle,
    )[0]);
    assert(spec_busy_to_wire(JibriBusyStatus::Expired).len() != spec_busy_to_wire(
        JibriBusyStatus::Idle,
    ).len());
    assert(spec_health_to_wire(JibriHealthStatus::Unhealthy).len() != spec_health_to_wire(
        JibriHealthStatus::Healthy,
    ).len());
}

} // verus!
