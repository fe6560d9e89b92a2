use vstd::prelude::*;

use crate::ai_functions::Shaper;
use crate::message::{extend_ai_function, extended_content, Message};
use crate::text::owned;

verus! {

#[verifier::external_type_specification]
#[verifier::external_body]
pub struct ExJsonValue(serde_json::Value);

#[verifier::external_type_specification]
#[verifier::external_body]
pub struct ExJsonError(serde_json::Error);

/// Whether serde_json accepts the text as one JSON value.
pub uninterp spec fn accepted_as_json(s: Seq<char>) -> bool;

/// Relies on `serde_json::from_str` into a `serde_json::Value`: it succeeds
/// exactly on the texts that serde_json accepts as one JSON value.
#[verifier::external_body]
fn parse_json(s: &str) -> (r: Result<serde_json::Value, serde_json::Error>)
    ensures
        r.is_ok() == accepted_as_json(s@),
{
    serde_json::from_str::<serde_json::Value>(s)
}

/// How one call of the completion gateway failed.
#[derive(Clone, Copy, Debug, PartialEq, Eq, Structural)]
pub enum GatewayError {
    /// The network or HTTP exchange failed.
    Transport,
    /// The response was not in the expected shape.
    Decode,
}

/// Why a task request gave up.
#[derive(Clone, Copy, Debug, PartialEq, Eq, Structural)]
pub enum TaskError {
    /// The gateway failed on the first call and on its one retry; the error is
    /// that of the retry.
    GatewayFailedTwice(GatewayError),
    /// The reply was not valid for the expected structured data.
    SchemaDecode,
}

/// One logical request through the completion gateway: the extended message,
/// who asks and for what, how many gateway calls were issued, and whether the
/// request is over.
pub struct TaskRequest {
    pub message: Message,
    pub position: String,
    pub operation: String,
    pub calls: u8,
    pub done: bool,
}

/// What the caller does next for a request.
pub enum RequestStep {
    /// Call the gateway with this single message.
    Call(Message),
    /// The request is over with this reply.
    Reply(String),
    /// The request is over and failed.
    Fatal(TaskError),
}

/// What the caller does next for a request whose reply is decoded.
pub enum DecodedStep {
    Call(Message),
    Value(serde_json::Value),
    Fatal(TaskError),
}

/// The largest number of gateway calls of one request.
pub const MAX_CALLS: u8 = 2;

impl TaskRequest {
    /// A request is in flight once its first call is issued, and never issues
    /// more than two.
    pub open spec fn wf(&self) -> bool {
        1 <= self.calls <= MAX_CALLS
    }
}

/// The request after the gateway answered `res`.
pub open spec fn advance(q: TaskRequest, res: Result<String, GatewayError>) -> TaskRequest {
    match res {
        Ok(_) => TaskRequest { done: true, ..q },
        Err(_) => if q.calls < MAX_CALLS {
            TaskRequest { calls: (q.calls + 1) as u8, ..q }
        } else {
            TaskRequest { done: true, ..q }
        },
    }
}

/// What the caller is told after the gateway answered `res`.
pub open spec fn step_of(q: TaskRequest, res: Result<String, GatewayError>) -> RequestStep {
    match res {
        Ok(t) => RequestStep::Reply(t),
        Err(e) => if q.calls < MAX_CALLS {
            RequestStep::Call(q.message)
        } else {
            RequestStep::Fatal(TaskError::GatewayFailedTwice(e))
        },
    }
}

/// Starts a request: extends `msg_context` with `function_pass` and issues the
/// first gateway call, whose message is returned beside the request.
pub fn ai_task_request(
    msg_context: String,
    agent_position: &str,
    agent_operation: &str,
    function_pass: Shaper,
) -> (r: (TaskRequest, Message))
    ensures
        r.0.wf(),
        r.0.calls == 1,
        !r.0.done,
        r.0.message.content@ == extended_content(function_pass, msg_context@),
        r.0.message.role == crate::message::Role::System,
        r.0.position@ == agent_position@,
        r.0.operation@ == agent_operation@,
        r.1 == r.0.message,
{
    let extended_msg = extend_ai_function(function_pass, msg_context.as_str());
    let first = extended_msg.duplicate();
    let q = TaskRequest {
        message: extended_msg,
        position: owned(agent_position),
        operation: owned(agent_operation),
        calls: 1,
        done: false,
    };
    (q, first)
}

impl TaskRequest {
    /// Takes the gateway's answer to the last call: a success ends the request
    /// with its text; the first failure asks for one retry with the same
    /// message; a second failure ends the request fatally.
    pub fn on_gateway_result(&mut self, res: Result<String, GatewayError>) -> (r: RequestStep)
        requires
            old(self).wf(),
            !old(self).done,
        ensures
            final(self).wf(),
            *final(self) == advance(*old(self), res),
            r == step_of(*old(self), res),
    {
        match res {
            Ok(text) => {
                self.done = true;
                RequestStep::Reply(text)
            },
            Err(e) => {
                if self.calls < MAX_CALLS {
                    self.calls = self.calls + 1;
                    RequestStep::Call(self.message.duplicate())
                } else {
                    self.done = true;
                    RequestStep::Fatal(TaskError::GatewayFailedTwice(e))
                }
            },
        }
    }

    /// As `on_gateway_result`, and a reply is then decoded as JSON; a reply
    /// that does not decode ends the request fatally, with no further call.
    pub fn on_gateway_result_decoded(&mut self, res: Result<String, GatewayError>) -> (r:
        DecodedStep)
        requires
            old(self).wf(),
            !old(self).done,
        ensures
            final(self).wf(),
            *final(self) == advance(*old(self), res),
            match step_of(*old(self), res) {
                RequestStep::Call(m) => r == DecodedStep::Call(m),
                RequestStep::Reply(t) => if accepted_as_json(t@) {
                    r is Value
                } else {
                    r == DecodedStep::Fatal(TaskError::SchemaDecode)
                },
                RequestStep::Fatal(e) => r == DecodedStep::Fatal(e),
            },
    {
        match self.on_gateway_result(res) {
            RequestStep::Call(m) => DecodedStep::Call(m),
            RequestStep::Reply(t) => match decode_reply(t.as_str()) {
                Ok(v) => DecodedStep::Value(v),
                Err(e) => DecodedStep::Fatal(e),
            },
            RequestStep::Fatal(e) => DecodedStep::Fatal(e),
        }
    }
}

/// Decodes a reply as JSON; a reply that serde_json does not accept is a
/// schema decode error.
pub fn decode_reply(text: &str) -> (r: Result<serde_json::Value, TaskError>)
    ensures
        r.is_ok() == accepted_as_json(text@),
        r.is_err() ==> r == Err::<serde_json::Value, TaskError>(TaskError::SchemaDecode),
{
    match parse_json(text) {
        Ok(v) => Ok(v),
        Err(_) => Err(TaskError::SchemaDecode),
    }
}

/// The request after the gateway answered each of `outcomes` in turn, for as
/// long as the request asks for calls.
pub open spec fn run_request(q: TaskRequest, outcomes: Seq<Result<String, GatewayError>>) -> TaskRequest
    decreases outcomes.len(),
{
    if q.done || outcomes.len() == 0 {
        q
    } else {
        run_request(advance(q, outcomes[0]), outcomes.drop_first())
    }
}

/// Whatever the gateway answers, a request calls it at most twice, and exactly
/// once when the first call succeeds.
pub proof fn lemma_request_calls_gateway_at_most_twice(
    q: TaskRequest,
    outcomes: Seq<Result<String, GatewayError>>,
)
    requires
        q.calls == 1,
        !q.done,
    ensures
        1 <= run_request(q, outcomes).calls <= 2,
        outcomes.len() > 0 && outcomes[0] is Ok ==> run_request(q, outcomes).calls == 1,
        outcomes.len() > 0 && outcomes[0] is Ok ==> run_request(q, outcomes).done,
{
    lemma_run_keeps_wf(q, outcomes);
    if outcomes.len() > 0 && outcomes[0] is Ok {
        let next = advance(q, outcomes[0]);
        assert(next.done);
        assert(run_request(next, outcomes.drop_first()) == next);
        assert(run_request(q, outcomes) == next);
    }
}

proof fn lemma_run_keeps_wf(q: TaskRequest, outcomes: Seq<Result<String, GatewayError>>)
    requires
        q.wf(),
    ensures
        run_request(q, outcomes).wf(),
    decreases outcomes.len(),
{
    if !(q.done || outcomes.len() == 0) {
        lemma_run_keeps_wf(advance(q, outcomes[0]), outcomes.drop_first());
    }
}

/// A reply from the gateway ends the request at once: whatever its decoding
/// then gives, no further gateway call is asked for.
pub proof fn lemma_decoded_reply_needs_no_further_call(
    q: TaskRequest,
    text: String,
)
    requires
        q.wf(),
        !q.done,
    ensures
        advance(q, Ok(text)).done,
        advance(q, Ok(text)).calls == q.calls,
        step_of(q, Ok(text)) == RequestStep::Reply(text),
{
}

} // verus!
