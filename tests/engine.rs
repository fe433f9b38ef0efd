use ra::conversation::{Role, ToolCall};
use ra::engine::{Agent, Event, Item, ItemStatus, Recovery, Reply, CONTINUE_MESSAGE, MULTIPLE_CALLS_MESSAGE};
use ra::tool_log::ChangeKind;
use ra::usage::Usage;

fn started(max_steps: Option<usize>, submit: bool) -> Agent {
    let mut agent = Agent::new(max_steps, submit);
    agent.start("thread-1".to_string(), "hi".to_string(), "system text".to_string(), None);
    agent
}

fn call(id: &str, name: &str, args: &str) -> ToolCall {
    ToolCall { id: id.to_string(), name: name.to_string(), arguments: args.to_string() }
}

fn one_usage() -> Usage {
    Usage { prompt_tokens: 1, completion_tokens: 1, total_tokens: 2, cached_tokens: None, reasoning_tokens: None }
}

#[test]
fn single_shot_run_returns_reply_and_logs_in_order() {
    let mut agent = started(Some(1), false);
    assert!(agent.begin_step(false).is_none());
    let reply = agent.on_completion(Some("ok".to_string()), None, Some(one_usage()));
    let answer = match reply {
        Reply::Finished { answer } => answer,
        _ => panic!("expected the run to finish"),
    };
    assert_eq!(answer, "ok");
    let events = agent.events();
    assert!(matches!(&events[0], Event::ThreadStarted { thread_id } if thread_id == "thread-1"));
    assert!(matches!(&events[1], Event::TurnStarted { prompt, system_prompt, agents_instructions: None }
        if prompt == "hi" && system_prompt == "system text"));
    assert!(matches!(&events[2], Event::ItemCompleted { item: Item::AgentMessage { id: 0, text } } if text == "ok"));
    match events.last().unwrap() {
        Event::TurnCompleted { usage } => {
            assert_eq!(usage.input_tokens, 1);
            assert_eq!(usage.cached_input_tokens, 0);
            assert_eq!(usage.output_tokens, 1);
            assert_eq!(usage.total_tokens, 2);
        }
        other => panic!("last event is {other:?}"),
    }
    assert_eq!(agent.messages().len(), 3);
    assert_eq!(agent.messages()[2].role, Role::Assistant);
}

#[test]
fn zero_max_steps_ends_before_any_request() {
    let mut agent = started(Some(0), false);
    let msg = agent.begin_step(false).expect("the run ends");
    assert_eq!(msg, "Terminated: max_steps (0) reached.");
    assert_eq!(agent.steps(), 0);
    let events = agent.events();
    assert_eq!(events.len(), 4);
    assert!(matches!(&events[2], Event::ItemCompleted { item: Item::Warning { id: 0, message } } if *message == msg));
    assert!(matches!(&events[3], Event::TurnCompleted { .. }));
}

#[test]
fn step_budget_is_counted() {
    let mut agent = started(Some(2), true);
    assert!(agent.begin_step(false).is_none());
    assert!(agent.begin_step(false).is_none());
    assert_eq!(agent.steps(), 2);
    assert_eq!(agent.begin_step(false).as_deref(), Some("Terminated: max_steps (2) reached."));
}

#[test]
fn time_limit_ends_the_run() {
    let mut agent = started(None, false);
    assert_eq!(agent.begin_step(true).as_deref(), Some("Terminated: time_limit reached."));
    assert!(matches!(agent.events().last(), Some(Event::TurnCompleted { .. })));
}

#[test]
fn only_the_first_of_two_tool_calls_is_dispatched() {
    let mut agent = started(None, true);
    agent.begin_step(false);
    let calls = vec![
        call("c1", "shell_command", "{\"command\":\"ls\"}"),
        call("c2", "read_file", "{\"file_path\":\"x\"}"),
    ];
    let reply = agent.on_completion(None, Some(calls), None);
    let dispatched = match reply {
        Reply::Dispatch { call } => call,
        _ => panic!("expected a dispatch"),
    };
    assert_eq!(dispatched.id, "c1");
    assert!(matches!(&agent.events()[2], Event::ItemStarted { item: Item::CommandExecution { id: 0, command, status: ItemStatus::InProgress, .. } } if command == "bash -lc ls"));
    agent.finish_tool(Ok("{\"exit_code\":0,\"stdout\":\"a\",\"stderr\":\"\"}".to_string()));
    let ms = agent.messages();
    assert_eq!(ms.len(), 5);
    assert_eq!(ms[3].tool_call_id.as_deref(), Some("c1"));
    assert_eq!(ms[4].tool_call_id.as_deref(), Some("c2"));
    assert_eq!(ms[4].content.as_deref(), Some("{\"error\":\"Multiple tool calls in one step are not supported.\"}"));
    let events = agent.events();
    assert!(matches!(&events[3], Event::ItemCompleted { item: Item::CommandExecution { id: 0, aggregated_output, exit_code: Some(0), status: ItemStatus::Completed, .. } } if aggregated_output == "a"));
    assert!(matches!(&events[4], Event::ItemCompleted { item: Item::Warning { id: 1, message } } if message == MULTIPLE_CALLS_MESSAGE));
    assert_eq!(events.len(), 5);
}

#[test]
fn submit_ends_the_run_without_dispatch() {
    let mut agent = started(None, true);
    agent.begin_step(false);
    let reply = agent.on_completion(None, Some(vec![call("s", "submit", "{\"answer\":\"42\"}")]), None);
    assert!(matches!(reply, Reply::Finished { ref answer } if answer == "42"));
    let events = agent.events();
    assert_eq!(events.len(), 4);
    assert!(matches!(&events[2], Event::ItemCompleted { item: Item::AgentMessage { text, .. } } if text == "42"));
    assert!(matches!(&events[3], Event::TurnCompleted { .. }));
    assert!(!events.iter().any(|e| matches!(e, Event::ItemStarted { .. })));
}

#[test]
fn submit_is_an_ordinary_tool_when_disabled() {
    let mut agent = started(None, false);
    let reply = agent.on_completion(None, Some(vec![call("s", "submit", "{\"answer\":\"42\"}")]), None);
    assert!(matches!(reply, Reply::Dispatch { ref call } if call.name == "submit"));
}

#[test]
fn unreadable_submit_arguments_fail() {
    let mut agent = started(None, true);
    let reply = agent.on_completion(None, Some(vec![call("s", "submit", "{\"answer\":5}")]), None);
    let expected = "submit arguments hold no string answer: {\"answer\":5}";
    assert!(matches!(reply, Reply::BadSubmit { ref message } if message == expected));
    let events = agent.events();
    assert_eq!(events.len(), 4);
    assert!(matches!(&events[2], Event::Error { message } if message == expected));
    assert!(matches!(&events[3], Event::TurnFailed { message } if message == expected));
}

#[test]
fn reply_without_tools_gets_a_nudge_when_submitting() {
    let mut agent = started(None, true);
    let reply = agent.on_completion(Some("  ".to_string()), None, None);
    assert!(matches!(reply, Reply::Continue));
    let ms = agent.messages();
    assert_eq!(ms.len(), 4);
    assert_eq!(ms[3].role, Role::User);
    assert_eq!(ms[3].content.as_deref(), Some(CONTINUE_MESSAGE));
    assert_eq!(agent.events().len(), 2);
}

#[test]
fn patch_results_are_logged_as_file_changes() {
    let mut agent = started(None, true);
    let patch = "--- a/x.txt\n+++ b/x.txt\n@@ -1 +1 @@\n-a\n+b\n";
    let args = format!("{{\"patch\":{}}}", serde_json::to_string(patch).unwrap());
    let reply = agent.on_completion(None, Some(vec![call("p", "apply_patch", &args)]), None);
    assert!(matches!(reply, Reply::Dispatch { .. }));
    assert_eq!(agent.events().len(), 2);
    agent.finish_tool(Ok("{\"strip_level\":1,\"exit_code\":1,\"stdout\":\"\",\"stderr\":\"bad\"}".to_string()));
    match agent.events().last().unwrap() {
        Event::ItemCompleted { item: Item::FileChange { id, changes, status } } => {
            assert_eq!(*id, 0);
            assert_eq!(*status, ItemStatus::Failed);
            assert_eq!(changes.len(), 1);
            assert_eq!(changes[0].path, "x.txt");
            assert_eq!(changes[0].kind, ChangeKind::Update);
        }
        other => panic!("unexpected {other:?}"),
    }
}

#[test]
fn tool_errors_reach_the_model_as_json() {
    let mut agent = started(None, true);
    agent.on_completion(None, Some(vec![call("r", "read_file", "{}")]), None);
    agent.finish_tool(Err("missing field `file_path`".to_string()));
    let ms = agent.messages();
    assert_eq!(ms[3].content.as_deref(), Some("{\"error\":\"missing field `file_path`\"}"));
    match agent.events().last().unwrap() {
        Event::ItemCompleted { item: Item::CommandExecution { exit_code, status, command, .. } } => {
            assert_eq!(*exit_code, Some(1));
            assert_eq!(*status, ItemStatus::Failed);
            assert_eq!(command, "tool:read_file {}");
        }
        other => panic!("unexpected {other:?}"),
    }
}

#[test]
fn finishing_without_a_dispatched_call_changes_nothing() {
    let mut agent = started(None, true);
    agent.finish_tool(Ok("x".to_string()));
    assert_eq!(agent.messages().len(), 2);
    assert_eq!(agent.events().len(), 2);
}

#[test]
fn other_request_errors_fail_the_run() {
    let mut agent = started(None, false);
    let r = agent.on_request_error("OpenRouter API error (HTTP 401)");
    assert!(matches!(r, Recovery::Fail));
    let events = agent.events();
    assert!(matches!(&events[2], Event::Error { message } if message == "OpenRouter API error (HTTP 401)"));
    assert!(matches!(&events[3], Event::TurnFailed { message } if message == "OpenRouter API error (HTTP 401)"));
}

#[test]
fn context_errors_prune_until_nothing_shrinks() {
    let mut agent = started(None, true);
    for i in 0..4 {
        agent.on_completion(Some(format!("a{i}")), None, None);
    }
    let before = agent.messages().len();
    assert_eq!(before, 10);
    let r = agent.on_request_error("maximum context length exceeded");
    assert!(matches!(r, Recovery::Retry));
    assert!(agent.messages().len() < before);
    let mut rounds = 0;
    loop {
        match agent.on_request_error("Context Length") {
            Recovery::Retry => rounds += 1,
            Recovery::Exhausted { message } => {
                assert_eq!(message, "Terminated: context length exceeded.");
                break;
            }
            Recovery::Fail => panic!("a context error must not fail the run"),
        }
        assert!(rounds < 20);
    }
    assert!(matches!(agent.events().last(), Some(Event::TurnCompleted { .. })));
}

#[test]
fn take_events_hands_over_and_clears() {
    let mut agent = started(None, false);
    let taken = agent.take_events();
    assert_eq!(taken.len(), 2);
    assert!(agent.events().is_empty());
}

#[test]
fn several_tool_steps_then_submit() {
    let mut agent = started(Some(10), true);
    let steps = [
        call("c1", "web_search", "{\"query\":\"Rust 1.75 release notes\",\"max_results\":5}"),
        call("c2", "web_open", "{\"url\":\"http://127.0.0.1/page\",\"offset\":1,\"limit\":200}"),
        call("c3", "web_find", "{\"url\":\"http://127.0.0.1/page\",\"pattern\":\"Rust\"}"),
    ];
    for (i, c) in steps.iter().enumerate() {
        assert!(agent.begin_step(false).is_none());
        let reply = agent.on_completion(None, Some(vec![c.clone()]), Some(one_usage()));
        assert!(matches!(reply, Reply::Dispatch { ref call } if call.id == c.id));
        agent.finish_tool(Ok(format!("{{\"step\":{i}}}")));
    }
    assert!(agent.begin_step(false).is_none());
    let reply = agent.on_completion(None, Some(vec![call("c4", "submit", "{\"answer\":\"ok\"}")]), Some(one_usage()));
    assert!(matches!(reply, Reply::Finished { ref answer } if answer == "ok"));
    assert_eq!(agent.steps(), 4);
    assert_eq!(agent.usage().input_tokens, 4);
    let ids: Vec<u64> = agent
        .events()
        .iter()
        .filter_map(|e| match e {
            Event::ItemCompleted { item: Item::CommandExecution { id, status, .. } } => {
                assert_eq!(*status, ItemStatus::Completed);
                Some(*id)
            }
            _ => None,
        })
        .collect();
    assert_eq!(ids, vec![0, 1, 2]);
    assert!(matches!(agent.events().last(), Some(Event::TurnCompleted { usage }) if usage.total_tokens == 8));
    // system, task, then an assistant message and a tool result per step, then the submit reply
    assert_eq!(agent.messages().len(), 2 + 2 * 3 + 1);
}
