//! Leadership coordination and shutdown: the per-tick decision of the lease
//! loop, the single-slot leadership broadcast it publishes to, and the
//! monotonic shutdown flag every loop observes.

use vstd::prelude::*;
use crate::sweeper::{SweepTickPlan, spec_sweeper_tick_plan};

verus! {

/// The decision of one leadership-coordination tick.
pub enum LeaderStep {
    /// The acquire-or-renew call failed: fatal, the whole process must stop,
    /// because sweeping on without knowing leadership risks duplicate
    /// destructive work.
    Fatal,
    /// Publish whether the lease is held, then exit the loop if shutdown was
    /// already requested; otherwise wait for the next tick.
    Continue { publish: bool, exit: bool },
}

/// Whether `r` is the decision for a lease outcome (`None` when the call
/// failed) observed together with `shutdown`.
pub open spec fn spec_leader_step(lease_acquired: Option<bool>, shutdown: bool, r: LeaderStep) -> bool {
    match lease_acquired {
        None => r is Fatal,
        Some(acquired) => r matches LeaderStep::Continue { publish, exit } && publish == acquired
            && exit == shutdown,
    }
}

/// Decides one leadership tick. The acquired-or-not outcome is published
/// before shutdown is evaluated, so subscribers always observe the latest
/// leadership state; a failed lease call is fatal; and the loop exits
/// exactly when shutdown was requested, so at most this one tick runs after
/// the flag is set.
pub fn leader_step(lease_acquired: Option<bool>, shutdown: bool) -> (r: LeaderStep)
    ensures
        spec_leader_step(lease_acquired, shutdown, r),
{
    match lease_acquired {
        None => LeaderStep::Fatal,
        Some(acquired) => LeaderStep::Continue { publish: acquired, exit: shutdown },
    }
}

/// Once the shutdown flag is true, every tick decided under it ends its
/// loop: the leadership coordinator's step exits (or was fatal), and the
/// sweeper's plan exits. Each loop therefore performs at most one further
/// tick after the flag is set.
pub proof fn lemma_shutdown_stops_loops(
    lease_acquired: Option<bool>,
    leader: bool,
    step: LeaderStep,
    plan: SweepTickPlan,
)
    ensures
        spec_leader_step(lease_acquired, true, step) ==> (step is Fatal || (step
            matches LeaderStep::Continue { exit, .. } && exit)),
        spec_sweeper_tick_plan(leader, true, plan) ==> plan.exit,
{
}

/// The single-slot leadership broadcast: the coordinator publishes into it,
/// the sweeper reads from it, and a reader always sees the latest published
/// value — never a queued history.
pub struct LeadershipCell {
    leader: bool,
}

impl LeadershipCell {
    /// Whether the slot currently says this replica leads.
    pub closed spec fn spec_leader(self) -> bool {
        self.leader
    }

    /// A fresh slot; nothing has been published, so not leading.
    pub fn new() -> (r: LeadershipCell)
        ensures
            !r.spec_leader(),
    {
        LeadershipCell { leader: false }
    }

    /// Publishes the latest leadership value, replacing the previous one.
    pub fn publish(&mut self, leader: bool)
        ensures
            final(self).spec_leader() == leader,
    {
        self.leader = leader;
    }

    /// Reads the most recently published value.
    pub fn current(&self) -> (r: bool)
        ensures
            r == self.spec_leader(),
    {
        self.leader
    }
}

/// The shared shutdown flag: false until the termination signal is
/// received, then true forever — no operation resets it.
pub struct ShutdownFlag {
    requested: bool,
}

impl ShutdownFlag {
    /// Whether shutdown has been requested.
    pub closed spec fn spec_requested(self) -> bool {
        self.requested
    }

    /// A fresh flag: shutdown not requested.
    pub fn new() -> (r: ShutdownFlag)
        ensures
            !r.spec_requested(),
    {
        ShutdownFlag { requested: false }
    }

    /// The one monotonic transition: set on signal receipt; setting it
    /// again has no further effect.
    pub fn request(&mut self)
        ensures
            final(self).spec_requested(),
    {
        self.requested = true;
    }

    /// Reads the flag.
    pub fn is_requested(&self) -> (r: bool)
        ensures
            r == self.spec_requested(),
    {
        self.requested
    }
}

} // verus!
