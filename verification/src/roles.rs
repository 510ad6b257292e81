//! Agent roles in the heterogeneous fleet and escalation tiers for
//! remediation actions.

use vstd::prelude::*;

verus! {

/// Escalation tier for remediation actions.
#[derive(Clone, Copy, Debug, PartialEq, Eq, Structural)]
pub enum EscalationTier {
    /// L0: auto-execute when confidence is high.
    L0AutoExecute,
    /// L1: notify a human, execute after a timeout.
    L1NotifyHuman,
    /// L2: require explicit human approval.
    L2RequireApproval,
    /// L3: PBFT consensus.
    L3PbftConsensus,
}

/// Agent role in the fleet.
#[derive(Clone, Copy, Debug, PartialEq, Eq, Hash, Structural)]
pub enum AgentRole {
    /// Correctness verification.
    Validator,
    /// Alternative detection.
    Explorer,
    /// Flaw detection.
    Critic,
    /// Cross-system impact.
    Integrator,
    /// Precedent matching.
    Historian,
}

/// Number of agents of each role in a 40-agent fleet.
pub open spec fn role_target_count(r: AgentRole) -> nat {
    match r {
        AgentRole::Validator => 20,
        AgentRole::Explorer => 8,
        AgentRole::Critic => 6,
        AgentRole::Integrator => 4,
        AgentRole::Historian => 2,
    }
}

/// Name of a role as its `Debug` form prints it.
pub open spec fn role_name(r: AgentRole) -> Seq<char> {
    match r {
        AgentRole::Validator => "Validator"@,
        AgentRole::Explorer => "Explorer"@,
        AgentRole::Critic => "Critic"@,
        AgentRole::Integrator => "Integrator"@,
        AgentRole::Historian => "Historian"@,
    }
}

impl AgentRole {
    /// The number of agents of this role in a 40-agent fleet.
    pub fn target_count(&self) -> (r: usize)
        ensures
            r == role_target_count(*self),
    {
        match self {
            AgentRole::Validator => 20,
            AgentRole::Explorer => 8,
            AgentRole::Critic => 6,
            AgentRole::Integrator => 4,
            AgentRole::Historian => 2,
        }
    }

    /// The role's name.
    pub fn name(&self) -> (r: &'static str)
        ensures
            r@ == role_name(*self),
    {
        match self {
            AgentRole::Validator => "Validator",
            AgentRole::Explorer => "Explorer",
            AgentRole::Critic => "Critic",
            AgentRole::Integrator => "Integrator",
            AgentRole::Historian => "Historian",
        }
    }
}

/// The target counts of the five roles make up the 40-agent fleet.
pub proof fn lemma_fleet_size()
    ensures
        role_target_count(AgentRole::Validator) + role_target_count(AgentRole::Explorer)
            + role_target_count(AgentRole::Critic) + role_target_count(AgentRole::Integrator)
            + role_target_count(AgentRole::Historian) == 40,
{
}

} // verus!
