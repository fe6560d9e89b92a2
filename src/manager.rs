use vstd::prelude::*;

use crate::agent::{AgentState, BasicAgent};
use crate::ai_functions::{name_of, Shaper};
use crate::backend::{AgentBackendDeveloper, AgentError, Effect, Feedback, Phase};
use crate::factsheet::FactSheet;
use crate::message::{extended_content, Message, Role};
use crate::policy::{ai_task_request, TaskRequest};
use crate::text::owned;

verus! {

/// An agent as the orchestrator holds it: one variant per specialised role.
pub enum SpecialistAgent {
    BackendDeveloper(AgentBackendDeveloper),
}

impl SpecialistAgent {
    pub open spec fn wf(&self) -> bool {
        match self {
            SpecialistAgent::BackendDeveloper(a) => a.wf(),
        }
    }

    /// Not yet started: in `Discovery`, idle.
    pub open spec fn fresh(&self) -> bool {
        match self {
            SpecialistAgent::BackendDeveloper(a) => a.wf() && a.attributes.state
                == AgentState::Discovery && a.phase == Phase::Idle,
        }
    }

    pub open spec fn attributes(&self) -> BasicAgent {
        match self {
            SpecialistAgent::BackendDeveloper(a) => a.attributes,
        }
    }

    /// What one step of the agent does.
    pub open spec fn stepped(
        &self,
        f: FactSheet,
        feedback: Feedback,
        after: SpecialistAgent,
        f2: FactSheet,
        r: Effect,
    ) -> bool {
        match (self, after) {
            (SpecialistAgent::BackendDeveloper(a), SpecialistAgent::BackendDeveloper(b)) => a.stepped(
                f,
                feedback,
                b,
                f2,
                r,
            ),
        }
    }

    pub fn get_attributes_from_agent(&self) -> (r: &BasicAgent)
        ensures
            *r == self.attributes(),
    {
        match self {
            SpecialistAgent::BackendDeveloper(a) => a.get_attributes_from_agent(),
        }
    }

    /// One step of the agent's control loop.
    pub fn step(&mut self, factsheet: &mut FactSheet, feedback: Feedback) -> (r: Effect)
        requires
            old(self).wf(),
        ensures
            final(self).wf(),
            old(self).stepped(*old(factsheet), feedback, *final(self), *final(factsheet), r),
    {
        match self {
            SpecialistAgent::BackendDeveloper(a) => a.step(factsheet, feedback),
        }
    }
}

/// Runs the agents of a project one after another against one fact sheet.
/// `agents` holds those not yet started, in order; `active` the one running;
/// `finished` those done, in order.
pub struct ManagingAgent {
    pub attributes: BasicAgent,
    pub factsheet: FactSheet,
    pub agents: Vec<SpecialistAgent>,
    pub active: Option<SpecialistAgent>,
    pub finished: Vec<SpecialistAgent>,
    pub aborted: bool,
}

/// The position of the orchestrator.
pub open spec fn manager_position() -> Seq<char> {
    "Project Manager"@
}

impl ManagingAgent {
    pub open spec fn wf(&self) -> bool {
        &&& forall|i: int| 0 <= i < self.agents@.len() ==> #[trigger] self.agents@[i].fresh()
        &&& self.active is Some ==> self.active->Some_0.wf()
    }

    /// The request that distils the user's request into the project goal, and
    /// its first gateway call.
    pub fn goal_request(user_request: String) -> (r: (TaskRequest, Message))
        ensures
            r.0.wf(),
            r.0.calls == 1,
            !r.0.done,
            r.0.message.role == Role::System,
            r.0.message.content@ == extended_content(
                Shaper::ConvertUserInputToGoal,
                user_request@,
            ),
            r.0.position@ == manager_position(),
            r.0.operation@ == name_of(Shaper::ConvertUserInputToGoal),
            r.1 == r.0.message,
    {
        let shaper = Shaper::ConvertUserInputToGoal;
        ai_task_request(user_request, "Project Manager", shaper.name(), shaper)
    }

    /// An orchestrator whose fact sheet is seeded with the distilled project
    /// description, holding no agents yet.
    pub fn new(project_description: String) -> (r: ManagingAgent)
        ensures
            r.wf(),
            r.attributes.objective@
                == "Manage agents who are building an excellent website for the user"@,
            r.attributes.position@ == manager_position(),
            r.attributes.state == AgentState::Discovery,
            r.factsheet.project_description == project_description,
            r.factsheet.project_scope is None,
            r.factsheet.external_urls is None,
            r.factsheet.backend_code is None,
            r.factsheet.api_endpoint_schema is None,
            r.agents@.len() == 0,
            r.active is None,
            r.finished@.len() == 0,
            !r.aborted,
    {
        let attributes = BasicAgent::new(
            owned("Manage agents who are building an excellent website for the user"),
            owned("Project Manager"),
        );
        ManagingAgent {
            attributes,
            factsheet: FactSheet::new(project_description),
            agents: Vec::new(),
            active: None,
            finished: Vec::new(),
            aborted: false,
        }
    }

    /// Appends an agent to run after those already held.
    pub fn add_agent(&mut self, agent: SpecialistAgent)
        requires
            old(self).wf(),
            agent.fresh(),
        ensures
            final(self).wf(),
            final(self).agents@ == old(self).agents@.push(agent),
            final(self).active == old(self).active,
            final(self).finished == old(self).finished,
            final(self).factsheet == old(self).factsheet,
            final(self).aborted == old(self).aborted,
    {
        self.agents.push(agent);
        assert(forall|i: int| 0 <= i < old(self).agents@.len() ==> #[trigger] self.agents@[i]
            == old(self).agents@[i]);
    }

    /// Appends the agents the project needs, in the order they run.
    pub fn create_agents(&mut self)
        requires
            old(self).wf(),
        ensures
            final(self).wf(),
            final(self).agents@.len() == old(self).agents@.len() + 1,
            final(self).agents@.subrange(0, old(self).agents@.len() as int)
                == old(self).agents@,
            final(self).agents@.last().attributes().position@ == "Backend Developer"@,
            final(self).active == old(self).active,
            final(self).finished == old(self).finished,
            final(self).factsheet == old(self).factsheet,
            final(self).aborted == old(self).aborted,
    {
        let a = AgentBackendDeveloper::new();
        self.add_agent(SpecialistAgent::BackendDeveloper(a));
        assert(self.agents@.subrange(0, old(self).agents@.len() as int) =~= old(self).agents@);
    }

    /// One step of the project run: steps the active agent; when it is done,
    /// it is set aside with its final attributes and the next agent starts.
    /// A failure of an agent aborts the run: no later agent is started, and
    /// every further step fails.
    pub fn step(&mut self, feedback: Feedback) -> (r: Effect)
        requires
            old(self).wf(),
        ensures
            final(self).wf(),
            final(self).attributes == old(self).attributes,
            final(self).factsheet.project_description == old(self).factsheet.project_description,
            old(self).aborted ==> *final(self) == *old(self) && r == Effect::Fatal(
                AgentError::OutOfOrder,
            ),
            r is Fatal ==> final(self).aborted && final(self).agents == old(self).agents,
            !(r is Fatal) ==> !final(self).aborted,
            r == Effect::Done <==> (!old(self).aborted && final(self).agents@.len() == 0
                && final(self).active is None),
            final(self).agents@ == old(self).agents@ || final(self).agents@
                == old(self).agents@.drop_first(),
            old(self).active is Some && !old(self).aborted ==> old(
                self,
            ).active->Some_0.stepped(
                old(self).factsheet,
                feedback,
                if final(self).finished@.len() > old(self).finished@.len() {
                    final(self).finished@.last()
                } else {
                    final(self).active->Some_0
                },
                final(self).factsheet,
                if final(self).finished@.len() > old(self).finished@.len() {
                    Effect::Done
                } else {
                    r
                },
            ),
    {
        if self.aborted {
            return Effect::Fatal(AgentError::OutOfOrder);
        }
        let mut feedback = feedback;
        if self.active.is_some() {
            let mut a = self.active.take().unwrap();
            let r = a.step(&mut self.factsheet, feedback);
            match r {
                Effect::Done => {
                    self.finished.push(a);
                    feedback = Feedback::Begin;
                },
                Effect::Fatal(e) => {
                    self.active = Some(a);
                    self.aborted = true;
                    return Effect::Fatal(e);
                },
                _ => {
                    self.active = Some(a);
                    return r;
                },
            }
        }
        if self.agents.len() == 0 {
            return Effect::Done;
        }
        let ghost pending = self.agents@;
        let mut next = self.agents.remove(0);
        assert(pending[0].fresh());
        assert(next == pending[0]);
        assert(self.agents@ =~= old(self).agents@.drop_first());
        assert(forall|i: int| 0 <= i < self.agents@.len() ==> #[trigger] self.agents@[i]
            == old(self).agents@[i + 1]);
        let r = next.step(&mut self.factsheet, feedback);
        assert(r == Effect::ReadTemplate);
        self.active = Some(next);
        r
    }
}

} // verus!
