use auto_gippity::agent::{AgentState, BasicAgent};
use auto_gippity::ai_functions::Shaper;
use auto_gippity::backend::{AgentBackendDeveloper, AgentError, Effect, Feedback, Phase};
use auto_gippity::factsheet::{FactSheet, ProjectScope};
use auto_gippity::manager::{ManagingAgent, SpecialistAgent};
use auto_gippity::message::{extend_ai_function, Role};
use auto_gippity::policy::{
    ai_task_request, decode_reply, DecodedStep, GatewayError, RequestStep, TaskError,
};

#[test]
fn tests_extending_ai_function() {
    let extended_str = extend_ai_function(Shaper::ConvertUserInputToGoal, "dummy variable");
    assert_eq!(extended_str.role.as_str().to_string(), "system".to_string());
}

#[test]
fn extended_message_holds_instruction_and_input() {
    let m = extend_ai_function(Shaper::PrintFixedCode, "dummy variable");
    assert_eq!(m.role, Role::System);
    assert!(m.content.starts_with("FUNCTION: "));
    assert!(m.content.contains(Shaper::PrintFixedCode.render("dummy variable")));
    assert!(m.content.contains("Here is the input to the function dummy variable,"));
    assert!(m.content.contains("You are a function pointer."));
    assert!(m.content.ends_with("Print out what the function will return."));
}

#[test]
fn request_calls_once_when_first_call_succeeds() {
    let (mut q, first) = ai_task_request("ctx".to_string(), "Managing agent", "Defining user requirements", Shaper::ConvertUserInputToGoal);
    assert_eq!(q.calls, 1);
    assert_eq!(first.content, q.message.content);
    assert_eq!(q.position, "Managing agent");
    assert_eq!(q.operation, "Defining user requirements");
    match q.on_gateway_result(Ok("a goal".to_string())) {
        RequestStep::Reply(t) => assert_eq!(t, "a goal"),
        _ => panic!("expected a reply"),
    }
    assert_eq!(q.calls, 1);
    assert!(q.done);
}

#[test]
fn request_retries_once_then_succeeds() {
    let (mut q, first) = ai_task_request("ctx".to_string(), "p", "o", Shaper::PrintFixedCode);
    match q.on_gateway_result(Err(GatewayError::Transport)) {
        RequestStep::Call(m) => assert_eq!(m.content, first.content),
        _ => panic!("expected a retry"),
    }
    assert_eq!(q.calls, 2);
    match q.on_gateway_result(Ok("done".to_string())) {
        RequestStep::Reply(t) => assert_eq!(t, "done"),
        _ => panic!("expected a reply"),
    }
    assert_eq!(q.calls, 2);
}

#[test]
fn request_fails_after_two_gateway_failures() {
    let (mut q, _) = ai_task_request("ctx".to_string(), "p", "o", Shaper::PrintFixedCode);
    assert!(matches!(q.on_gateway_result(Err(GatewayError::Decode)), RequestStep::Call(_)));
    match q.on_gateway_result(Err(GatewayError::Transport)) {
        RequestStep::Fatal(e) => assert_eq!(e, TaskError::GatewayFailedTwice(GatewayError::Transport)),
        _ => panic!("expected a fatal error"),
    }
    assert_eq!(q.calls, 2);
    assert!(q.done);
}

#[test]
fn decoded_request_accepts_valid_json() {
    let (mut q, _) = ai_task_request("ctx".to_string(), "p", "o", Shaper::PrintRestApiEndpoints);
    match q.on_gateway_result_decoded(Ok("[{\"route\": \"/notes\"}]".to_string())) {
        DecodedStep::Value(v) => assert_eq!(v[0]["route"], "/notes"),
        _ => panic!("expected a value"),
    }
    assert_eq!(q.calls, 1);
}

#[test]
fn decoded_request_fails_on_invalid_json_without_retry() {
    let (mut q, _) = ai_task_request("ctx".to_string(), "p", "o", Shaper::PrintRestApiEndpoints);
    match q.on_gateway_result_decoded(Ok("not json {".to_string())) {
        DecodedStep::Fatal(e) => assert_eq!(e, TaskError::SchemaDecode),
        _ => panic!("expected a decode failure"),
    }
    assert_eq!(q.calls, 1);
    assert!(q.done);
}

#[test]
fn decode_reply_parses_json() {
    assert!(decode_reply("{\"is_crud_required\": true}").is_ok());
    assert_eq!(decode_reply("{\"a\": 1").err(), Some(TaskError::SchemaDecode));
    assert_eq!(decode_reply("").err(), Some(TaskError::SchemaDecode));
}

#[test]
fn basic_agent_starts_in_discovery() {
    let mut b = BasicAgent::new("obj".to_string(), "pos".to_string());
    assert_eq!(*b.get_state(), AgentState::Discovery);
    assert_eq!(b.get_objective(), "obj");
    assert_eq!(b.get_position(), "pos");
    assert!(b.get_memory().is_empty());
    b.update_state(AgentState::Working);
    assert_eq!(*b.get_state(), AgentState::Working);
}

#[test]
fn backend_developer_new() {
    let a = AgentBackendDeveloper::new();
    let attrs = a.get_attributes_from_agent();
    assert_eq!(attrs.position, "Backend Developer");
    assert_eq!(attrs.objective, "Develops backend code for webserver and json database");
    assert_eq!(attrs.state, AgentState::Discovery);
    assert_eq!(a.bug_count, 0);
    assert!(a.bug_errors.is_none());
}

#[test]
fn fact_sheet_summary_lists_fields() {
    let mut f = FactSheet::new("notes api".to_string());
    f.project_scope = Some(ProjectScope {
        is_crud_required: true,
        is_user_login_and_logout: false,
        is_external_urls_required: true,
    });
    f.external_urls = Some(vec!["https://a".to_string(), "https://b".to_string()]);
    assert_eq!(
        f.summary(),
        "project_description: notes api; project_scope: is_crud_required: true, is_user_login_and_logout: false, is_external_urls_required: true; external_urls: https://a https://b ; backend_code: None; api_endpoint_schema: None"
    );
}

#[test]
fn contexts_are_exact() {
    let mut f = FactSheet::new("notes".to_string());
    assert_eq!(
        AgentBackendDeveloper::initial_backend_context("TPL", &f),
        "CODE TEMPLATE: TPL \n PROJECT_DESCRIPTION: notes \n"
    );
    f.backend_code = Some("fn main() {}".to_string());
    assert_eq!(
        AgentBackendDeveloper::fix_code_bugs_context(&f, &Some("E1".to_string())),
        "BROKEN_CODE: fn main() {} \n ERROR_BUGS: E1 \n THIS FUNCTION ONLY OUTPUTS CODE. JUST OUTPUT THE CODE."
    );
    assert!(AgentBackendDeveloper::improved_backend_context(&f)
        .starts_with("CODE TEMPLATE: fn main() {} \n PROJECT_DESCRIPTION: project_description: notes;"));
}

fn expect_call(e: Effect) -> String {
    match e {
        Effect::Complete(m) => {
            assert_eq!(m.role, Role::System);
            m.content
        }
        _ => panic!("expected a gateway call"),
    }
}

#[test]
fn discovery_stores_and_saves_the_same_code() {
    let mut a = AgentBackendDeveloper::new();
    let mut f = FactSheet::new("build a CRUD API for notes".to_string());
    assert!(matches!(a.step(&mut f, Feedback::Begin), Effect::ReadTemplate));
    let content = expect_call(a.step(&mut f, Feedback::Template("TEMPLATE".to_string())));
    assert!(content.contains("CODE TEMPLATE: TEMPLATE \n PROJECT_DESCRIPTION: build a CRUD API for notes \n"));
    match a.step(&mut f, Feedback::Completion(Ok("code v1".to_string()))) {
        Effect::SaveBackendCode(c) => assert_eq!(c, "code v1"),
        _ => panic!("expected a save"),
    }
    assert_eq!(f.backend_code, Some("code v1".to_string()));
    assert_eq!(a.attributes.state, AgentState::Discovery);
    assert_eq!(a.phase, Phase::AwaitSave);
}

#[test]
fn backend_agent_end_to_end() {
    let mut a = AgentBackendDeveloper::new();
    let mut f = FactSheet::new("build a CRUD API for notes".to_string());
    let mut saves: Vec<String> = Vec::new();
    let mut states: Vec<AgentState> = vec![a.attributes.state];
    let mut feedback = Feedback::Begin;
    let mut replies = vec!["code v1".to_string(), "code v2".to_string()].into_iter();
    loop {
        let effect = a.step(&mut f, feedback);
        if *states.last().unwrap() != a.attributes.state {
            states.push(a.attributes.state);
        }
        feedback = match effect {
            Effect::ReadTemplate => Feedback::Template("TEMPLATE".to_string()),
            Effect::Complete(_) => Feedback::Completion(Ok(replies.next().unwrap())),
            Effect::SaveBackendCode(c) => {
                saves.push(c);
                Feedback::Saved
            }
            Effect::Done => break,
            Effect::Fatal(e) => panic!("unexpected failure {:?}", e),
        };
    }
    assert_eq!(a.attributes.state, AgentState::Finished);
    assert_eq!(saves, vec!["code v1".to_string(), "code v2".to_string()]);
    assert_eq!(f.backend_code, Some("code v2".to_string()));
    // Unit testing finishes within the step that saves the working code.
    assert_eq!(states, vec![AgentState::Discovery, AgentState::Working, AgentState::Finished]);
    assert!(matches!(a.step(&mut f, Feedback::Begin), Effect::Done));
}

#[test]
fn working_fixes_bugs_when_some_are_known() {
    let mut a = AgentBackendDeveloper::new();
    a.bug_count = 1;
    a.bug_errors = Some("E0308".to_string());
    let mut f = FactSheet::new("notes".to_string());
    a.step(&mut f, Feedback::Begin);
    a.step(&mut f, Feedback::Template("T".to_string()));
    a.step(&mut f, Feedback::Completion(Ok("broken".to_string())));
    let content = expect_call(a.step(&mut f, Feedback::Saved));
    assert_eq!(a.attributes.state, AgentState::Working);
    assert!(content.contains("BROKEN_CODE: broken \n ERROR_BUGS: E0308"));
}

#[test]
fn agent_errors() {
    let mut f = FactSheet::new("notes".to_string());
    let mut a = AgentBackendDeveloper::new();
    a.step(&mut f, Feedback::Begin);
    assert!(matches!(a.step(&mut f, Feedback::IoFailed), Effect::Fatal(AgentError::Io)));
    assert!(matches!(a.step(&mut f, Feedback::Begin), Effect::Fatal(AgentError::OutOfOrder)));

    let mut b = AgentBackendDeveloper::new();
    b.step(&mut f, Feedback::Begin);
    assert!(matches!(b.step(&mut f, Feedback::Saved), Effect::Fatal(AgentError::OutOfOrder)));
}

#[test]
fn extract_endpoints_request() {
    let a = AgentBackendDeveloper::new();
    let (q, m) = a.call_extract_rest_api_endpoints("fn main() {}");
    assert_eq!(q.calls, 1);
    assert_eq!(q.operation, "print_rest_api_endpoints");
    assert!(m.content.contains("CODE_INPUT: fn main() {}"));
}

#[test]
fn manager_aborts_when_gateway_fails_twice() {
    let mut m = ManagingAgent::new("notes".to_string());
    m.create_agents();
    m.create_agents();
    assert_eq!(m.agents.len(), 2);
    assert!(matches!(m.step(Feedback::Begin), Effect::ReadTemplate));
    assert_eq!(m.agents.len(), 1);
    expect_call(m.step(Feedback::Template("T".to_string())));
    expect_call(m.step(Feedback::Completion(Err(GatewayError::Transport))));
    match m.step(Feedback::Completion(Err(GatewayError::Decode))) {
        Effect::Fatal(e) => assert_eq!(e, AgentError::Task(TaskError::GatewayFailedTwice(GatewayError::Decode))),
        _ => panic!("expected a fatal error"),
    }
    assert!(m.aborted);
    assert_eq!(m.agents.len(), 1);
    assert_eq!(m.agents[0].get_attributes_from_agent().state, AgentState::Discovery);
    assert!(matches!(m.step(Feedback::Begin), Effect::Fatal(AgentError::OutOfOrder)));
    assert_eq!(m.agents.len(), 1);
    assert!(m.factsheet.backend_code.is_none());
}

#[test]
fn manager_runs_agents_in_order() {
    let (q, first) = ManagingAgent::goal_request("Build me a webserver for notes.".to_string());
    assert_eq!(q.position, "Project Manager");
    assert!(first.content.contains("Build me a webserver for notes."));
    let mut m = ManagingAgent::new("build a CRUD API for notes".to_string());
    assert!(matches!(m.step(Feedback::Begin), Effect::Done));
    m.create_agents();
    m.add_agent(SpecialistAgent::BackendDeveloper(AgentBackendDeveloper::new()));
    let mut feedback = Feedback::Begin;
    let mut n: u32 = 0;
    loop {
        n += 1;
        feedback = match m.step(feedback) {
            Effect::ReadTemplate => Feedback::Template("T".to_string()),
            Effect::Complete(_) => Feedback::Completion(Ok(format!("code {}", n))),
            Effect::SaveBackendCode(_) => Feedback::Saved,
            Effect::Done => break,
            Effect::Fatal(e) => panic!("unexpected failure {:?}", e),
        };
    }
    assert_eq!(m.finished.len(), 2);
    assert!(m.agents.is_empty());
    for a in m.finished.iter() {
        assert_eq!(a.get_attributes_from_agent().state, AgentState::Finished);
    }
    assert!(m.factsheet.backend_code.is_some());
}
