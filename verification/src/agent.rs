//! Registered agents: identity, advertised capabilities, pricing and the
//! counters of their past outcomes.

use vstd::prelude::*;
use vstd::string::*;
use crate::clock::unix_timestamp;
use crate::error::Failure;
use crate::events::AgentRegistered;
use crate::identity::Identity;
use crate::reputation::reputation_of;

verus! {

/// The longest display name, in characters.
pub const MAX_NAME_LEN: usize = 32;

/// The largest number of capability tags in one set.
pub const MAX_CAPABILITIES: usize = 10;

/// The longest capability tag, in characters.
pub const MAX_CAPABILITY_LEN: usize = 32;

/// A registered agent.
#[derive(Clone, Debug, PartialEq, Eq)]
pub struct Agent {
    pub owner: Identity,
    pub name: String,
    pub capabilities: Vec<String>,
    pub hourly_rate: u64,
    pub reputation_score: u64,
    pub tasks_completed: u64,
    pub tasks_failed: u64,
    pub total_earned: u64,
    pub is_active: bool,
    pub created_at: i64,
}

/// The accounts of a registration: the address of the new agent record and
/// the owner who registers it.
#[derive(Clone, Copy, Debug, PartialEq, Eq)]
pub struct RegisterAgent {
    pub agent: Identity,
    pub owner: Identity,
}

/// A capability set within bounds: at most `MAX_CAPABILITIES` tags, each of
/// at most `MAX_CAPABILITY_LEN` characters.
pub open spec fn capabilities_within_bounds(tags: Seq<String>) -> bool {
    &&& tags.len() <= MAX_CAPABILITIES
    &&& forall|i: int| 0 <= i < tags.len() ==> (#[trigger] tags[i])@.len() <= MAX_CAPABILITY_LEN
}

/// Whether `tag` occurs in `tags`, by exact match.
pub open spec fn has_capability(tags: Seq<String>, tag: Seq<char>) -> bool {
    exists|i: int| 0 <= i < tags.len() && (#[trigger] tags[i])@ == tag
}

/// Whether every tag of `required` occurs in `tags`.
pub open spec fn covers(tags: Seq<String>, required: Seq<String>) -> bool {
    forall|j: int| 0 <= j < required.len() ==> has_capability(tags, (#[trigger] required[j])@)
}

impl Agent {
    /// The record's invariant: name and capabilities within bounds, and the
    /// score the one that the counters give.
    pub open spec fn wf(&self) -> bool {
        &&& self.name@.len() <= MAX_NAME_LEN
        &&& capabilities_within_bounds(self.capabilities@)
        &&& self.reputation_score == reputation_of(
            self.tasks_completed as nat,
            self.tasks_failed as nat,
        )
    }

    /// Whether the agent advertises `tag`.
    pub fn has_capability(&self, tag: &String) -> (found: bool)
        ensures
            found == has_capability(self.capabilities@, tag@),
    {
        let mut i: usize = 0;
        while i < self.capabilities.len()
            invariant
                i <= self.capabilities.len(),
                forall|k: int| 0 <= k < i ==> (#[trigger] self.capabilities@[k])@ != tag@,
            decreases self.capabilities.len() - i,
        {
            if self.capabilities[i] == *tag {
                return true;
            }
            i += 1;
        }
        false
    }

    /// Whether the agent advertises every tag of `required`.
    pub fn covers(&self, required: &Vec<String>) -> (all: bool)
        ensures
            all == covers(self.capabilities@, required@),
    {
        let mut j: usize = 0;
        while j < required.len()
            invariant
                j <= required.len(),
                forall|k: int|
                    0 <= k < j ==> has_capability(
                        self.capabilities@,
                        (#[trigger] required@[k])@,
                    ),
            decreases required.len() - j,
        {
            if !self.has_capability(&required[j]) {
                return false;
            }
            j += 1;
        }
        true
    }
}

/// Whether a capability set is within bounds.
pub fn capabilities_fit(tags: &Vec<String>) -> (fit: bool)
    ensures
        fit == capabilities_within_bounds(tags@),
{
    if tags.len() > MAX_CAPABILITIES {
        return false;
    }
    let mut i: usize = 0;
    while i < tags.len()
        invariant
            i <= tags.len(),
            tags@.len() <= MAX_CAPABILITIES,
            forall|k: int| 0 <= k < i ==> (#[trigger] tags@[k])@.len() <= MAX_CAPABILITY_LEN,
        decreases tags.len() - i,
    {
        if tags[i].as_str().unicode_len() > MAX_CAPABILITY_LEN {
            return false;
        }
        i += 1;
    }
    true
}

/// What a registration may carry: a name and a capability set within bounds.
pub open spec fn registration_within_bounds(name: Seq<char>, capabilities: Seq<String>) -> bool {
    &&& name.len() <= MAX_NAME_LEN
    &&& capabilities_within_bounds(capabilities)
}

/// Whether a name and a capability set may be registered.
pub fn registration_fits(name: &String, capabilities: &Vec<String>) -> (fit: bool)
    ensures
        fit == registration_within_bounds(name@, capabilities@),
{
    name.as_str().unicode_len() <= MAX_NAME_LEN && capabilities_fit(capabilities)
}

/// The agent that a registration at time `now` creates: active, with the
/// score of an empty history and all counters at zero.
pub open spec fn registered(
    ctx: RegisterAgent,
    name: String,
    capabilities: Vec<String>,
    hourly_rate: u64,
    now: i64,
) -> Agent {
    Agent {
        owner: ctx.owner,
        name: name,
        capabilities: capabilities,
        hourly_rate: hourly_rate,
        reputation_score: 100,
        tasks_completed: 0,
        tasks_failed: 0,
        total_earned: 0,
        is_active: true,
        created_at: now,
    }
}

/// Registers a new agent for `ctx.owner` at the time that the host's clock
/// gives. Only a host whose clock cannot be read makes it fail.
pub fn register_agent(
    ctx: &RegisterAgent,
    name: String,
    capabilities: Vec<String>,
    hourly_rate: u64,
) -> (res: Result<(Agent, AgentRegistered), Failure>)
    requires
        registration_within_bounds(name@, capabilities@),
    ensures
        match res {
            Ok(out) => {
                &&& out.0 == registered(*ctx, name, capabilities, hourly_rate, out.0.created_at)
                &&& out.1 == (AgentRegistered { agent: ctx.agent, owner: ctx.owner, name: name })
                &&& out.0.wf()
            },
            Err(failure) => failure is ClockUnavailable,
        },
{
    match unix_timestamp() {
        Ok(now) => Ok(register_agent_at(ctx, name, capabilities, hourly_rate, now)),
        Err(refusal) => Err(Failure::ClockUnavailable(refusal)),
    }
}

/// Registers a new agent for `ctx.owner` at time `now`. The agent starts
/// active, with the score of an empty history and all counters at zero.
pub fn register_agent_at(
    ctx: &RegisterAgent,
    name: String,
    capabilities: Vec<String>,
    hourly_rate: u64,
    now: i64,
) -> (out: (Agent, AgentRegistered))
    requires
        registration_within_bounds(name@, capabilities@),
    ensures
        out.0 == registered(*ctx, name, capabilities, hourly_rate, now),
        out.1 == (AgentRegistered { agent: ctx.agent, owner: ctx.owner, name: name }),
        out.0.wf(),
{
    let event = AgentRegistered { agent: ctx.agent, owner: ctx.owner, name: name.clone() };
    let agent = Agent {
        owner: ctx.owner,
        name,
        capabilities,
        hourly_rate,
        reputation_score: 100,
        tasks_completed: 0,
        tasks_failed: 0,
        total_earned: 0,
        is_active: true,
        created_at: now,
    };
    (agent, event)
}

} // verus!
