use vstd::prelude::*;

use crate::message::Message;

verus! {

/// The phase an agent is in; `Finished` is terminal.
#[derive(Clone, Copy, Debug, PartialEq, Eq, Structural)]
pub enum AgentState {
    Discovery,
    Working,
    UnitTesting,
    Finished,
}

/// The position of a state in the forward order of phases.
pub open spec fn rank(s: AgentState) -> nat {
    match s {
        AgentState::Discovery => 0,
        AgentState::Working => 1,
        AgentState::UnitTesting => 2,
        AgentState::Finished => 3,
    }
}

/// The transitions an agent may take: one phase forward, or back from unit
/// testing to working when bugs were found.
pub open spec fn may_move(from: AgentState, to: AgentState) -> bool {
    match from {
        AgentState::Discovery => to == AgentState::Working,
        AgentState::Working => to == AgentState::UnitTesting,
        AgentState::UnitTesting => to == AgentState::Finished || to == AgentState::Working,
        AgentState::Finished => false,
    }
}

/// Every transition moves exactly one phase forward, but for the bug-retry
/// edge from unit testing back to working; nothing leaves `Finished`.
pub proof fn lemma_states_only_advance(from: AgentState, to: AgentState)
    ensures
        may_move(from, to) ==> rank(to) == rank(from) + 1 || (from == AgentState::UnitTesting
            && to == AgentState::Working),
        from == AgentState::Finished ==> !may_move(from, to),
{
}

/// The attributes every agent has.
pub struct BasicAgent {
    pub objective: String,
    pub position: String,
    pub state: AgentState,
    pub memory: Vec<Message>,
}

impl BasicAgent {
    /// A fresh agent, in `Discovery`, with no memory.
    pub fn new(objective: String, position: String) -> (r: BasicAgent)
        ensures
            r.objective == objective,
            r.position == position,
            r.state == AgentState::Discovery,
            r.memory@.len() == 0,
    {
        BasicAgent { objective, position, state: AgentState::Discovery, memory: Vec::new() }
    }

    /// Moves the agent along one of its allowed transitions.
    pub fn update_state(&mut self, new_state: AgentState)
        requires
            may_move(old(self).state, new_state),
        ensures
            final(self).state == new_state,
            final(self).objective == old(self).objective,
            final(self).position == old(self).position,
            final(self).memory == old(self).memory,
    {
        self.state = new_state;
    }

    pub fn get_objective(&self) -> (r: &String)
        ensures
            *r == self.objective,
    {
        &self.objective
    }

    pub fn get_position(&self) -> (r: &String)
        ensures
            *r == self.position,
    {
        &self.position
    }

    pub fn get_state(&self) -> (r: &AgentState)
        ensures
            *r == self.state,
    {
        &self.state
    }

    pub fn get_memory(&self) -> (r: &Vec<Message>)
        ensures
            *r == self.memory,
    {
        &self.memory
    }
}

} // verus!
