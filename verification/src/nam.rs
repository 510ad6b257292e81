//! Agent attribution primitives: who performed an action (the human is
//! the peer agent `@0.A`), and the outcome vocabulary of learning signals.

use vstd::prelude::*;
use crate::roles::{AgentRole, role_name};
use crate::shared_types::{AgentId, IntoText};
use crate::text::{owned, push_str};

verus! {

/// Tag of the human agent, a peer rather than a supervisor.
pub const HUMAN_AGENT_TAG: &'static str = "@0.A";

/// Identifier of the foundation layer.
pub const LAYER_ID: &'static str = "L1";

/// Number of modules in the foundation layer.
pub const MODULE_COUNT: u8 = 9;

/// Who performed an action.
#[derive(Debug, Clone, PartialEq, Eq, Hash)]
pub enum AgentOrigin {
    /// Human operator.
    Human {
        /// Human agent tag.
        tag: String,
    },
    /// Service acting autonomously.
    Service {
        /// Service identifier.
        service_id: String,
    },
    /// Fleet agent with a role.
    Agent {
        /// Agent identifier.
        agent_id: String,
        /// The agent's role.
        role: AgentRole,
    },
    /// System-level automated operation.
    System,
}

/// The text an origin displays as.
pub open spec fn origin_text(o: AgentOrigin) -> Seq<char> {
    match o {
        AgentOrigin::Human { tag } => "Human("@ + tag@ + ")"@,
        AgentOrigin::Service { service_id } => "Service("@ + service_id@ + ")"@,
        AgentOrigin::Agent { agent_id, role } => "Agent("@ + agent_id@ + ", "@ + role_name(role)
            + ")"@,
        AgentOrigin::System => "System"@,
    }
}

/// The operational identity of an origin.
pub open spec fn origin_agent_id(o: AgentOrigin) -> Seq<char> {
    match o {
        AgentOrigin::Human { tag } => "human:"@ + tag@,
        AgentOrigin::Service { service_id } => "svc:"@ + service_id@,
        AgentOrigin::Agent { agent_id, role: _ } => "agent:"@ + agent_id@,
        AgentOrigin::System => "sys:system"@,
    }
}

impl AgentOrigin {
    /// The human agent with the `@0.A` tag.
    pub fn human() -> (r: Self)
        ensures
            r matches AgentOrigin::Human { tag } && tag@ == HUMAN_AGENT_TAG@,
    {
        AgentOrigin::Human { tag: owned(HUMAN_AGENT_TAG) }
    }

    /// A service origin.
    pub fn service(service_id: impl IntoText) -> (r: Self)
        ensures
            r matches AgentOrigin::Service { service_id: s } && s@ == service_id.text(),
    {
        AgentOrigin::Service { service_id: service_id.into_text() }
    }

    /// A fleet-agent origin with its role.
    pub fn agent(agent_id: impl IntoText, role: AgentRole) -> (r: Self)
        ensures
            r matches AgentOrigin::Agent { agent_id: a, role: ro } && a@ == agent_id.text() && ro
                == role,
    {
        AgentOrigin::Agent { agent_id: agent_id.into_text(), role }
    }

    /// `Human(tag)`, `Service(id)`, `Agent(id, Role)` or `System`.
    pub fn to_display_string(&self) -> (r: String)
        ensures
            r@ == origin_text(*self),
    {
        let mut s = String::new();
        match self {
            AgentOrigin::Human { tag } => {
                push_str(&mut s, "Human(");
                push_str(&mut s, tag.as_str());
                push_str(&mut s, ")");
            },
            AgentOrigin::Service { service_id } => {
                push_str(&mut s, "Service(");
                push_str(&mut s, service_id.as_str());
                push_str(&mut s, ")");
            },
            AgentOrigin::Agent { agent_id, role } => {
                push_str(&mut s, "Agent(");
                push_str(&mut s, agent_id.as_str());
                push_str(&mut s, ", ");
                push_str(&mut s, role.name());
                push_str(&mut s, ")");
            },
            AgentOrigin::System => {
                push_str(&mut s, "System");
            },
        }
        assert(s@ =~= origin_text(*self));
        s
    }
}

impl Default for AgentOrigin {
    fn default() -> (r: Self)
        ensures
            r == AgentOrigin::System,
    {
        AgentOrigin::System
    }
}

impl AgentId {
    /// The operational identity of an origin: `human:<tag>`, `svc:<id>`,
    /// `agent:<id>` or `sys:system`.
    pub fn from_origin(origin: &AgentOrigin) -> (r: AgentId)
        ensures
            r@ == origin_agent_id(*origin),
    {
        match origin {
            AgentOrigin::Human { tag } => {
                let mut s = owned("human:");
                push_str(&mut s, tag.as_str());
                AgentId::from_raw(s)
            },
            AgentOrigin::Service { service_id } => AgentId::service(service_id.as_str()),
            AgentOrigin::Agent { agent_id, role: _ } => AgentId::agent(agent_id.as_str()),
            AgentOrigin::System => AgentId::system(),
        }
    }
}

impl<'a> From<&'a AgentOrigin> for AgentId {
    fn from(origin: &'a AgentOrigin) -> (r: AgentId)
        ensures
            r@ == origin_agent_id(*origin),
    {
        AgentId::from_origin(origin)
    }
}

/// The conversion's text is stated on `from` itself (`r@ ==
/// origin_agent_id(*origin)`); an identity is determined by its text only up
/// to the string's storage, so no single `AgentId` value is named here.
impl<'a> vstd::std_specs::convert::FromSpecImpl<&'a AgentOrigin> for AgentId {
    open spec fn obeys_from_spec() -> bool {
        false
    }

    open spec fn from_spec(v: &'a AgentOrigin) -> AgentId {
        choose|r: AgentId| r@ == origin_agent_id(*v)
    }
}

/// Outcome of an operation, for learning feedback.
#[derive(Debug, Clone, Copy, PartialEq, Eq, Hash, Structural)]
pub enum Outcome {
    /// The operation completed successfully.
    Success,
    /// The operation failed.
    Failure,
    /// The operation partially succeeded.
    Partial,
}

pub open spec fn outcome_name(o: Outcome) -> Seq<char> {
    match o {
        Outcome::Success => "Success"@,
        Outcome::Failure => "Failure"@,
        Outcome::Partial => "Partial"@,
    }
}

impl Outcome {
    /// `Success`, `Failure` or `Partial`.
    pub fn to_display_string(self) -> (r: String)
        ensures
            r@ == outcome_name(self),
    {
        match self {
            Outcome::Success => owned("Success"),
            Outcome::Failure => owned("Failure"),
            Outcome::Partial => owned("Partial"),
        }
    }
}

} // verus!
