use ra::conversation::{prune_messages, Message, Role, ToolCall};

fn call(id: &str) -> ToolCall {
    ToolCall { id: id.to_string(), name: "shell_command".to_string(), arguments: "{}".to_string() }
}

fn assistant_with(ids: &[&str]) -> Message {
    Message::assistant(None, Some(ids.iter().map(|i| call(i)).collect()))
}

fn tool(id: &str) -> Message {
    Message::tool(id.to_string(), format!("result {id}"))
}

fn roles(ms: &[Message]) -> Vec<Role> {
    ms.iter().map(|m| m.role).collect()
}

fn text(m: &Message) -> &str {
    m.content.as_deref().unwrap_or("")
}

#[test]
fn prune_keeps_system_and_task_and_drops_oldest_third() {
    // system, task, then 6 more: assistant(a) tool(a) user(u1) assistant(b) tool(b) user(u2)
    let ms = vec![
        Message::system("sys".to_string()),
        Message::user("task".to_string()),
        assistant_with(&["a"]),
        tool("a"),
        Message::user("u1".to_string()),
        assistant_with(&["b"]),
        tool("b"),
        Message::user("u2".to_string()),
    ];
    let out = prune_messages(&ms);
    // rest has 6 messages; a third is 2; the first user message at or after index 2 is u1.
    assert_eq!(roles(&out), vec![Role::System, Role::User, Role::User, Role::Assistant, Role::Tool, Role::User]);
    assert_eq!(text(&out[0]), "sys");
    assert_eq!(text(&out[1]), "task");
    assert_eq!(text(&out[2]), "u1");
    assert_eq!(out[4].tool_call_id.as_deref(), Some("b"));
}

#[test]
fn prune_drops_orphaned_tool_results() {
    // rest has 3 messages: assistant(a) tool(a) tool(a2); a third is 1, no user after it,
    // so the cut stays at 1 and tool(a) loses its assistant.
    let ms = vec![
        Message::system("sys".to_string()),
        Message::user("task".to_string()),
        assistant_with(&["a", "a2"]),
        tool("a"),
        tool("a2"),
    ];
    let out = prune_messages(&ms);
    assert_eq!(roles(&out), vec![Role::System, Role::User]);
}

#[test]
fn prune_keeps_tool_results_of_a_kept_assistant() {
    let ms = vec![
        Message::system("sys".to_string()),
        Message::user("task".to_string()),
        Message::assistant(Some("thinking".to_string()), None),
        assistant_with(&["x"]),
        tool("x"),
        tool("y"),
    ];
    let out = prune_messages(&ms);
    // rest has 4; a third is 1; no user after it: keep rest[1..] = assistant(x) tool(x) tool(y);
    // tool(y) answers no call of assistant(x) and is dropped.
    assert_eq!(roles(&out), vec![Role::System, Role::User, Role::Assistant, Role::Tool]);
    assert_eq!(out[3].tool_call_id.as_deref(), Some("x"));
}

#[test]
fn prune_without_user_moves_system_first_only() {
    let ms = vec![
        Message::assistant(Some("a".to_string()), None),
        Message::system("sys".to_string()),
        tool("z"),
    ];
    let out = prune_messages(&ms);
    assert_eq!(roles(&out), vec![Role::System, Role::Assistant, Role::Tool]);
    assert_eq!(out.len(), ms.len());
}

#[test]
fn prune_of_empty_conversation_is_empty() {
    assert!(prune_messages(&Vec::new()).is_empty());
}

#[test]
fn repeated_pruning_shrinks_then_stabilizes() {
    let mut ms = vec![Message::system("sys".to_string()), Message::user("task".to_string())];
    for i in 0..30 {
        ms.push(Message::assistant(Some(format!("step {i}")), None));
        ms.push(Message::user(format!("more {i}")));
    }
    let mut len = ms.len();
    let mut rounds = 0;
    loop {
        let next = prune_messages(&ms);
        assert!(next.len() <= len);
        assert_eq!(text(&next[0]), "sys");
        assert_eq!(text(&next[1]), "task");
        if next.len() == len {
            break;
        }
        len = next.len();
        ms = next;
        rounds += 1;
        assert!(rounds < 100);
    }
    assert_eq!(len, 3);
    assert_eq!(text(&ms[2]), "more 29");
}

#[test]
fn user_message_clears_active_tool_calls() {
    let ms = vec![
        Message::system("sys".to_string()),
        Message::user("task".to_string()),
        assistant_with(&["a"]),
        Message::user("interrupt".to_string()),
        tool("a"),
    ];
    let out = prune_messages(&ms);
    // rest has 3; a third is 1; rest[1] is a user message; the tool result after it is dropped.
    assert_eq!(roles(&out), vec![Role::System, Role::User, Role::User]);
    assert_eq!(text(&out[2]), "interrupt");
}
