use vstd::prelude::*;

use crate::agent::{rank, AgentState, BasicAgent};
use crate::ai_functions::{name_of, Shaper};
use crate::factsheet::{opt_text, push_opt, summary_of, FactSheet};
use crate::message::{extended_content, Message, Role};
use crate::policy::{ai_task_request, advance, step_of, GatewayError, RequestStep, TaskError, TaskRequest};
use crate::text::{owned, push_text};

verus! {

/// Why an agent's execution failed.
#[derive(Clone, Copy, Debug, PartialEq, Eq, Structural)]
pub enum AgentError {
    /// Reading the template or saving generated code failed.
    Io,
    /// A request through the gateway failed.
    Task(TaskError),
    /// The feedback did not answer the effect that was asked for.
    OutOfOrder,
}

/// What the caller performs next on behalf of an agent.
pub enum Effect {
    /// Read the code template.
    ReadTemplate,
    /// Call the completion gateway with this single message.
    Complete(Message),
    /// Write this code to the generated output location.
    SaveBackendCode(String),
    /// The agent is finished.
    Done,
    /// The agent failed and will do nothing more.
    Fatal(AgentError),
}

/// What came of the last effect.
pub enum Feedback {
    /// Nothing yet: the first step of an agent.
    Begin,
    /// The code template was read.
    Template(String),
    /// The gateway answered.
    Completion(Result<String, GatewayError>),
    /// The code was saved.
    Saved,
    /// Reading or writing a file failed.
    IoFailed,
}

/// Where an agent stands within its current state.
#[derive(Clone, Copy, Debug, PartialEq, Eq, Structural)]
pub enum Phase {
    Idle,
    AwaitTemplate,
    AwaitCompletion,
    AwaitSave,
    Failed,
}

/// The agent that writes the backend code of the project.
pub struct AgentBackendDeveloper {
    pub attributes: BasicAgent,
    pub bug_errors: Option<String>,
    pub bug_count: u8,
    pub phase: Phase,
    pub request: Option<TaskRequest>,
}

/// The message context of the first generation.
pub open spec fn initial_context(template: Seq<char>, description: Seq<char>) -> Seq<char> {
    "CODE TEMPLATE: "@ + template + " \n PROJECT_DESCRIPTION: "@ + description + " \n"@
}

/// The message context of an improvement.
pub open spec fn improved_context(f: FactSheet) -> Seq<char> {
    "CODE TEMPLATE: "@ + opt_text(f.backend_code) + " \n PROJECT_DESCRIPTION: "@ + summary_of(f)
        + " \n"@
}

/// The message context of a bug fix.
pub open spec fn fix_context(code: Option<String>, bugs: Option<String>) -> Seq<char> {
    "BROKEN_CODE: "@ + opt_text(code) + " \n ERROR_BUGS: "@ + opt_text(bugs)
        + " \n THIS FUNCTION ONLY OUTPUTS CODE. JUST OUTPUT THE CODE."@
}

/// The message context of the endpoint extraction.
pub open spec fn endpoints_context(code: Seq<char>) -> Seq<char> {
    "CODE_INPUT: "@ + code
}

/// The state that follows a saved generation.
pub open spec fn after_save(s: AgentState) -> AgentState {
    match s {
        AgentState::Discovery => AgentState::Working,
        _ => AgentState::UnitTesting,
    }
}

impl AgentBackendDeveloper {
    pub open spec fn wf(&self) -> bool {
        &&& (self.phase == Phase::AwaitCompletion) == (self.request is Some)
        &&& self.request is Some ==> self.request->Some_0.wf() && !self.request->Some_0.done
        &&& self.phase == Phase::AwaitTemplate ==> self.attributes.state == AgentState::Discovery
        &&& self.phase == Phase::AwaitCompletion || self.phase == Phase::AwaitSave
            ==> self.attributes.state == AgentState::Discovery || self.attributes.state
            == AgentState::Working
    }

    /// The shaping function of the working phase.
    pub open spec fn work_shaper(&self) -> Shaper {
        if self.bug_count == 0 {
            Shaper::PrintImprovedWebserverCode
        } else {
            Shaper::PrintFixedCode
        }
    }

    /// The message context of the working phase.
    pub open spec fn work_context(&self, f: FactSheet) -> Seq<char> {
        if self.bug_count == 0 {
            improved_context(f)
        } else {
            fix_context(f.backend_code, self.bug_errors)
        }
    }

    /// The same agent with only its phase, request and state changed.
    pub open spec fn same_but_progress(&self, other: AgentBackendDeveloper) -> bool {
        &&& other.attributes.objective == self.attributes.objective
        &&& other.attributes.position == self.attributes.position
        &&& other.attributes.memory == self.attributes.memory
        &&& other.bug_errors == self.bug_errors
        &&& other.bug_count == self.bug_count
    }

    /// A first gateway call of a new request for `shaper` on `context` was
    /// issued: `after` holds the request and `r` asks for the call.
    pub open spec fn issued(&self, after: AgentBackendDeveloper, shaper: Shaper, context: Seq<char>, r: Effect) -> bool {
        &&& after.phase == Phase::AwaitCompletion
        &&& after.request is Some
        &&& after.request->Some_0.calls == 1
        &&& after.request->Some_0.message.role == Role::System
        &&& after.request->Some_0.message.content@ == extended_content(shaper, context)
        &&& after.request->Some_0.position@ == self.attributes.position@
        &&& after.request->Some_0.operation@ == name_of(shaper)
        &&& r == Effect::Complete(after.request->Some_0.message)
    }

    /// What starting the work of the current state does.
    pub open spec fn begun(&self, f: FactSheet, after: AgentBackendDeveloper, r: Effect) -> bool {
        match self.attributes.state {
            AgentState::Discovery => after.phase == Phase::AwaitTemplate && after.request is None
                && after.attributes.state == AgentState::Discovery && r == Effect::ReadTemplate,
            AgentState::Working => after.attributes.state == AgentState::Working && self.issued(
                after,
                self.work_shaper(),
                self.work_context(f),
                r,
            ),
            AgentState::UnitTesting => after.attributes.state == AgentState::Finished
                && after.phase == Phase::Idle && after.request is None && r == Effect::Done,
            AgentState::Finished => after.attributes.state == AgentState::Finished
                && after.phase == Phase::Idle && after.request is None && r == Effect::Done,
        }
    }

    /// The effect of a failure: the agent stops for good.
    pub open spec fn failed_with(&self, after: AgentBackendDeveloper, e: AgentError, r: Effect) -> bool {
        &&& after.phase == Phase::Failed
        &&& after.request is None
        &&& after.attributes.state == self.attributes.state
        &&& r == Effect::Fatal(e)
    }

    /// A backend developer in `Discovery`, with no bugs known.
    pub fn new() -> (r: AgentBackendDeveloper)
        ensures
            r.wf(),
            r.attributes.objective@ == "Develops backend code for webserver and json database"@,
            r.attributes.position@ == "Backend Developer"@,
            r.attributes.state == AgentState::Discovery,
            r.attributes.memory@.len() == 0,
            r.bug_errors is None,
            r.bug_count == 0,
            r.phase == Phase::Idle,
            r.request is None,
    {
        let attributes = BasicAgent::new(
            owned("Develops backend code for webserver and json database"),
            owned("Backend Developer"),
        );
        AgentBackendDeveloper {
            attributes,
            bug_errors: None,
            bug_count: 0,
            phase: Phase::Idle,
            request: None,
        }
    }

    pub fn get_attributes_from_agent(&self) -> (r: &BasicAgent)
        ensures
            *r == self.attributes,
    {
        &self.attributes
    }

    /// Starts a request for `shaper` on `context` and asks for its first call.
    fn issue(&mut self, context: String, shaper: Shaper) -> (r: Effect)
        requires
            old(self).wf(),
            old(self).attributes.state == AgentState::Discovery || old(self).attributes.state
                == AgentState::Working,
        ensures
            final(self).wf(),
            old(self).same_but_progress(*final(self)),
            final(self).attributes.state == old(self).attributes.state,
            old(self).issued(*final(self), shaper, context@, r),
    {
        let (q, first) = ai_task_request(context, self.attributes.position.as_str(), shaper.name(), shaper);
        self.request = Some(q);
        self.phase = Phase::AwaitCompletion;
        Effect::Complete(first)
    }

    fn fail(&mut self, e: AgentError) -> (r: Effect)
        requires
            old(self).wf(),
        ensures
            final(self).wf(),
            old(self).same_but_progress(*final(self)),
            old(self).failed_with(*final(self), e, r),
    {
        self.request = None;
        self.phase = Phase::Failed;
        Effect::Fatal(e)
    }

    /// Starts the work of the current state.
    fn begin_phase(&mut self, factsheet: &FactSheet) -> (r: Effect)
        requires
            old(self).wf(),
            old(self).phase == Phase::Idle,
        ensures
            final(self).wf(),
            old(self).same_but_progress(*final(self)),
            old(self).begun(*factsheet, *final(self), r),
    {
        match self.attributes.state {
            AgentState::Discovery => {
                self.phase = Phase::AwaitTemplate;
                Effect::ReadTemplate
            },
            AgentState::Working => {
                if self.bug_count == 0 {
                    let ctx = Self::improved_backend_context(factsheet);
                    self.issue(ctx, Shaper::PrintImprovedWebserverCode)
                } else {
                    let ctx = Self::fix_code_bugs_context(factsheet, &self.bug_errors);
                    self.issue(ctx, Shaper::PrintFixedCode)
                }
            },
            AgentState::UnitTesting => {
                self.attributes.update_state(AgentState::Finished);
                Effect::Done
            },
            AgentState::Finished => Effect::Done,
        }
    }

    /// The context of the first generation, from the template and the fact sheet.
    pub fn initial_backend_context(template: &str, factsheet: &FactSheet) -> (r: String)
        ensures
            r@ == initial_context(template@, factsheet.project_description@),
    {
        let mut s = owned("CODE TEMPLATE: ");
        push_text(&mut s, template);
        push_text(&mut s, " \n PROJECT_DESCRIPTION: ");
        push_text(&mut s, factsheet.project_description.as_str());
        push_text(&mut s, " \n");
        s
    }

    /// The context of an improvement of the code in the fact sheet.
    pub fn improved_backend_context(factsheet: &FactSheet) -> (r: String)
        ensures
            r@ == improved_context(*factsheet),
    {
        let mut s = owned("CODE TEMPLATE: ");
        push_opt(&mut s, &factsheet.backend_code);
        push_text(&mut s, " \n PROJECT_DESCRIPTION: ");
        let summary = factsheet.summary();
        push_text(&mut s, summary.as_str());
        push_text(&mut s, " \n");
        s
    }

    /// The context of a fix of the code in the fact sheet.
    pub fn fix_code_bugs_context(factsheet: &FactSheet, bug_errors: &Option<String>) -> (r: String)
        ensures
            r@ == fix_context(factsheet.backend_code, *bug_errors),
    {
        let mut s = owned("BROKEN_CODE: ");
        push_opt(&mut s, &factsheet.backend_code);
        push_text(&mut s, " \n ERROR_BUGS: ");
        push_opt(&mut s, bug_errors);
        push_text(&mut s, " \n THIS FUNCTION ONLY OUTPUTS CODE. JUST OUTPUT THE CODE.");
        s
    }

    /// Starts the request that lists the REST endpoints of `backend_code`;
    /// it lies outside the state loop and leaves the agent unchanged.
    pub fn call_extract_rest_api_endpoints(&self, backend_code: &str) -> (r: (TaskRequest, Message))
        ensures
            r.0.wf(),
            r.0.calls == 1,
            !r.0.done,
            r.0.message.role == Role::System,
            r.0.message.content@ == extended_content(
                Shaper::PrintRestApiEndpoints,
                endpoints_context(backend_code@),
            ),
            r.0.position@ == self.attributes.position@,
            r.0.operation@ == name_of(Shaper::PrintRestApiEndpoints),
            r.1 == r.0.message,
    {
        let mut ctx = owned("CODE_INPUT: ");
        push_text(&mut ctx, backend_code);
        let shaper = Shaper::PrintRestApiEndpoints;
        ai_task_request(ctx, self.attributes.position.as_str(), shaper.name(), shaper)
    }

    /// The agent in state `s`, idle, with nothing else changed.
    pub open spec fn with_state(&self, s: AgentState) -> AgentBackendDeveloper {
        AgentBackendDeveloper {
            attributes: BasicAgent { state: s, ..self.attributes },
            phase: Phase::Idle,
            request: None,
            ..*self
        }
    }

    /// What one step does, given the agent and fact sheet before and after it.
    pub open spec fn stepped(
        &self,
        f: FactSheet,
        feedback: Feedback,
        after: AgentBackendDeveloper,
        f2: FactSheet,
        r: Effect,
    ) -> bool {
        if self.attributes.state == AgentState::Finished {
            after == *self && f2 == f && r == Effect::Done
        } else {
            match self.phase {
                Phase::Idle => f2 == f && self.begun(f, after, r),
                Phase::Failed => after == *self && f2 == f && r == Effect::Fatal(AgentError::OutOfOrder),
                Phase::AwaitTemplate => f2 == f && match feedback {
                    Feedback::Template(t) => after.attributes.state == self.attributes.state
                        && self.issued(
                        after,
                        Shaper::PrintBackendWebserverCode,
                        initial_context(t@, f.project_description@),
                        r,
                    ),
                    Feedback::IoFailed => self.failed_with(after, AgentError::Io, r),
                    _ => self.failed_with(after, AgentError::OutOfOrder, r),
                },
                Phase::AwaitCompletion => match feedback {
                    Feedback::Completion(res) => {
                        let q = self.request->Some_0;
                        match step_of(q, res) {
                            RequestStep::Call(m) => f2 == f && after == AgentBackendDeveloper {
                                request: Some(advance(q, res)),
                                ..*self
                            } && r == Effect::Complete(m),
                            RequestStep::Reply(t) => f2 == FactSheet { backend_code: Some(t), ..f }
                                && after == AgentBackendDeveloper {
                                phase: Phase::AwaitSave,
                                request: None,
                                ..*self
                            } && r == Effect::SaveBackendCode(t),
                            RequestStep::Fatal(e) => f2 == f && self.failed_with(
                                after,
                                AgentError::Task(e),
                                r,
                            ),
                        }
                    },
                    _ => f2 == f && self.failed_with(after, AgentError::OutOfOrder, r),
                },
                Phase::AwaitSave => f2 == f && match feedback {
                    Feedback::Saved => self.with_state(after_save(self.attributes.state)).begun(
                        f,
                        after,
                        r,
                    ),
                    Feedback::IoFailed => self.failed_with(after, AgentError::Io, r),
                    _ => self.failed_with(after, AgentError::OutOfOrder, r),
                },
            }
        }
    }

    /// One step of the agent's control loop: takes what came of the last
    /// effect and returns the next one. `Discovery` generates code from the
    /// template, `Working` improves it (or fixes it when bugs are known), each
    /// saving the result; `UnitTesting` then finishes.
    pub fn step(&mut self, factsheet: &mut FactSheet, feedback: Feedback) -> (r: Effect)
        requires
            old(self).wf(),
        ensures
            final(self).wf(),
            old(self).same_but_progress(*final(self)),
            old(self).stepped(*old(factsheet), feedback, *final(self), *final(factsheet), r),
            rank(old(self).attributes.state) <= rank(final(self).attributes.state),
    {
        if self.attributes.state == AgentState::Finished {
            return Effect::Done;
        }
        match self.phase {
            Phase::Idle => self.begin_phase(factsheet),
            Phase::Failed => Effect::Fatal(AgentError::OutOfOrder),
            Phase::AwaitTemplate => match feedback {
                Feedback::Template(t) => {
                    let ctx = Self::initial_backend_context(t.as_str(), factsheet);
                    self.issue(ctx, Shaper::PrintBackendWebserverCode)
                },
                Feedback::IoFailed => self.fail(AgentError::Io),
                _ => self.fail(AgentError::OutOfOrder),
            },
            Phase::AwaitCompletion => match feedback {
                Feedback::Completion(res) => {
                    let mut q = self.request.take().unwrap();
                    match q.on_gateway_result(res) {
                        RequestStep::Call(m) => {
                            self.request = Some(q);
                            Effect::Complete(m)
                        },
                        RequestStep::Reply(t) => {
                            factsheet.backend_code = Some(t.clone());
                            self.phase = Phase::AwaitSave;
                            Effect::SaveBackendCode(t)
                        },
                        RequestStep::Fatal(e) => {
                            self.phase = Phase::Failed;
                            Effect::Fatal(AgentError::Task(e))
                        },
                    }
                },
                _ => self.fail(AgentError::OutOfOrder),
            },
            Phase::AwaitSave => match feedback {
                Feedback::Saved => {
                    match self.attributes.state {
                        AgentState::Discovery => self.attributes.update_state(AgentState::Working),
                        _ => self.attributes.update_state(AgentState::UnitTesting),
                    }
                    self.phase = Phase::Idle;
                    self.begin_phase(factsheet)
                },
                Feedback::IoFailed => self.fail(AgentError::Io),
                _ => self.fail(AgentError::OutOfOrder),
            },
        }
    }
}

/// When discovery's request is answered with code `x`, the fact sheet then
/// holds `x` as its backend code, and the same `x` is to be written out.
pub proof fn lemma_discovery_stores_and_saves_reply(
    a: AgentBackendDeveloper,
    f: FactSheet,
    x: String,
    after: AgentBackendDeveloper,
    f2: FactSheet,
    r: Effect,
)
    requires
        a.wf(),
        a.attributes.state == AgentState::Discovery,
        a.phase == Phase::AwaitCompletion,
        a.stepped(f, Feedback::Completion(Ok(x)), after, f2, r),
    ensures
        f2.backend_code == Some(x),
        r == Effect::SaveBackendCode(x),
        after.phase == Phase::AwaitSave,
        after.attributes.state == AgentState::Discovery,
{
}

/// When the gateway fails again on the retry of an agent's request, the
/// agent fails with that error, leaves the fact sheet as it was, and stops.
pub proof fn lemma_second_gateway_failure_is_fatal(
    a: AgentBackendDeveloper,
    f: FactSheet,
    e: GatewayError,
    after: AgentBackendDeveloper,
    f2: FactSheet,
    r: Effect,
)
    requires
        a.wf(),
        a.attributes.state != AgentState::Finished,
        a.phase == Phase::AwaitCompletion,
        a.request->Some_0.calls == 2,
        a.stepped(f, Feedback::Completion(Err(e)), after, f2, r),
    ensures
        r == Effect::Fatal(AgentError::Task(TaskError::GatewayFailedTwice(e))),
        after.phase == Phase::Failed,
        f2 == f,
{
}

} // verus!
