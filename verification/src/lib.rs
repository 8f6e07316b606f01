//! Coordination logic for a controller that manages the lifecycle of worker
//! pods from two signals: an inbound status webhook pushed by each worker, and
//! a periodic outbound health poll gated by cluster-wide leader election.
//!
//! The library holds the decisions: routing and response codes for the webhook
//! endpoint, parsing of the wire-format status reports, the label patch built
//! for busy workers, the per-tick plans of the sweeper and the leadership
//! coordinator, and the shared shutdown / leadership state they consult.
//! The surrounding process (HTTP transport, cluster API calls, timers and
//! signals) performs the planned actions and feeds the results back in.

use vstd::prelude::*;

pub mod text;
pub mod jibri_schema;
pub mod labels;
pub mod store;
pub mod json;
pub mod server;
pub mod sweeper;
pub mod coordinator;

verus! {

} // verus!
