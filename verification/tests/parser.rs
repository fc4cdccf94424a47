use dev_hud::events::{SessionEvent, ToolCategory};
use dev_hud::json::Json;
use dev_hud::watcher::parser::{
    clean_teammate_prompt, extract_error_content, extract_tool_description, shorten_path, Parser,
};

/// A JSON string.
fn s(v: &str) -> Json {
    Json::Str(v.to_string())
}

/// A JSON object with the given fields, in order.
fn obj(fields: Vec<(&str, Json)>) -> Json {
    Json::Object(fields.into_iter().map(|(k, v)| (k.to_string(), v)).collect())
}

fn make_parser() -> Parser {
    Parser::new()
}

// -----------------------------------------------------------------------
// shorten_path
// -----------------------------------------------------------------------

#[test]
fn shorten_path_short_unchanged() {
    assert_eq!(shorten_path("src/main.rs"), "src/main.rs");
}

#[test]
fn shorten_path_long_trimmed() {
    assert_eq!(
        shorten_path("/home/user/projects/my-app/src/main.rs"),
        ".../src/main.rs"
    );
}

#[test]
fn shorten_path_single_component() {
    assert_eq!(shorten_path("main.rs"), "main.rs");
}

// -----------------------------------------------------------------------
// extract_tool_description
// -----------------------------------------------------------------------

#[test]
fn extract_description_notebook_edit_with_notebook_path() {
    let input = obj(vec![("notebook_path", s("/home/user/analysis.ipynb"))]);
    let desc = extract_tool_description("NotebookEdit", &input);
    assert!(desc.contains("analysis.ipynb"));
}

#[test]
fn extract_description_ask_user_question() {
    let desc = extract_tool_description("AskUserQuestion", &Json::Null);
    assert_eq!(desc, "asking user");
}

#[test]
fn extract_description_skill_with_name() {
    let input = obj(vec![("skill", s("commit"))]);
    let desc = extract_tool_description("Skill", &input);
    assert_eq!(desc, "/commit");
}

#[test]
fn extract_description_skill_without_name() {
    let desc = extract_tool_description("Skill", &Json::Null);
    assert_eq!(desc, "skill");
}

#[test]
fn extract_description_enter_plan_mode() {
    let desc = extract_tool_description("EnterPlanMode", &Json::Null);
    assert_eq!(desc, "planning");
}

#[test]
fn extract_description_task_create_with_description() {
    let input = obj(vec![
        ("subject", s("Fix bug")),
        ("description", s("investigate login issue")),
    ]);
    let desc = extract_tool_description("TaskCreate", &input);
    assert_eq!(desc, "investigate login issue");
}

#[test]
fn extract_description_task_create_without_description() {
    let desc = extract_tool_description("TaskCreate", &Json::Null);
    assert_eq!(desc, "spawning agent");
}

#[test]
fn extract_description_send_message_with_summary() {
    let input = obj(vec![
        ("recipient", s("researcher")),
        ("summary", s("Auth module progress")),
        ("type", s("message")),
    ]);
    let desc = extract_tool_description("SendMessage", &input);
    assert_eq!(desc, "researcher: Auth module progress");
}

#[test]
fn extract_description_send_message_no_summary() {
    let input = obj(vec![("recipient", s("team-lead")), ("type", s("message"))]);
    let desc = extract_tool_description("SendMessage", &input);
    assert_eq!(desc, "to team-lead");
}

#[test]
fn extract_description_send_message_broadcast() {
    let input = obj(vec![("type", s("broadcast")), ("summary", s("Stop all work"))]);
    let desc = extract_tool_description("SendMessage", &input);
    assert_eq!(desc, "all: Stop all work");
}

#[test]
fn extract_description_team_create() {
    let input = obj(vec![("team_name", s("feature-auth"))]);
    let desc = extract_tool_description("TeamCreate", &input);
    assert_eq!(desc, "team: feature-auth");
}

#[test]
fn extract_description_team_create_no_name() {
    let desc = extract_tool_description("TeamCreate", &Json::Null);
    assert_eq!(desc, "creating team");
}

// -----------------------------------------------------------------------
// clean_teammate_prompt
// -----------------------------------------------------------------------

#[test]
fn clean_teammate_prompt_with_json_content() {
    let text = r#"<teammate-message teammate_id="team-lead">{"type":"message","content":"Task complete, all tests pass"}</teammate-message>"#;
    let result = clean_teammate_prompt(text);
    assert_eq!(result, "team-lead: Task complete, all tests pass");
}

#[test]
fn clean_teammate_prompt_with_json_type_only() {
    let text = r#"<teammate-message teammate_id="researcher">{"type":"task_assignment","taskId":"42"}</teammate-message>"#;
    let result = clean_teammate_prompt(text);
    assert_eq!(result, "researcher (task_assignment)");
}

#[test]
fn clean_teammate_prompt_plain_text() {
    let text =
        r#"<teammate-message teammate_id="dev-agent">hello world</teammate-message>"#;
    let result = clean_teammate_prompt(text);
    assert_eq!(result, "dev-agent: hello world");
}

#[test]
fn clean_teammate_prompt_empty_inner() {
    let text =
        r#"<teammate-message teammate_id="bot"></teammate-message>"#;
    let result = clean_teammate_prompt(text);
    assert_eq!(result, "msg from bot");
}

#[test]
fn clean_teammate_prompt_no_closing_tag() {
    let text = r#"<teammate-message teammate_id="lead">some content"#;
    let result = clean_teammate_prompt(text);
    assert_eq!(result, "lead: some content");
}

// -----------------------------------------------------------------------
// User prompt parsing
// -----------------------------------------------------------------------

#[test]
fn parse_user_prompt_simple() {
    let mut parser = make_parser();
    let line = r#"{"type":"user","message":{"role":"user","content":"hello world"}}"#;
    let events = parser.parse_line(line);
    assert_eq!(events.len(), 1);
    match &events[0] {
        SessionEvent::UserPrompt { text } => {
            assert_eq!(text, "hello world");
        }
        other => panic!("expected UserPrompt, got {:?}", other),
    }
}

#[test]
fn parse_user_prompt_preserves_full_text() {
    let mut parser = make_parser();
    let long_text = "a".repeat(200);
    let line = format!(
        r#"{{"type":"user","message":{{"role":"user","content":"{}"}}}}"#,
        long_text
    );
    let events = parser.parse_line(&line);
    assert_eq!(events.len(), 1);
    match &events[0] {
        SessionEvent::UserPrompt { text } => {
            assert_eq!(text.len(), 200);
            assert!(!text.ends_with("..."));
        }
        other => panic!("expected UserPrompt, got {:?}", other),
    }
}

#[test]
fn parse_user_prompt_teammate_message_cleaned() {
    let mut parser = make_parser();
    let line = r#"{"type":"user","message":{"role":"user","content":"<teammate-message teammate_id=\"dev-agent\">{\"type\":\"message\",\"content\":\"All tests pass\"}</teammate-message>"}}"#;
    let events = parser.parse_line(line);
    assert_eq!(events.len(), 1);
    match &events[0] {
        SessionEvent::UserPrompt { text } => {
            assert_eq!(text, "dev-agent: All tests pass");
        }
        other => panic!("expected UserPrompt, got {:?}", other),
    }
}

// -----------------------------------------------------------------------
// Tool result (ToolEnd)
// -----------------------------------------------------------------------

#[test]
fn parse_tool_result_success() {
    let mut parser = make_parser();
    let line = r#"{"type":"user","message":{"role":"user","content":[{"type":"tool_result","tool_use_id":"toolu_123","is_error":false}]}}"#;
    let events = parser.parse_line(line);
    assert_eq!(events.len(), 1);
    match &events[0] {
        SessionEvent::ToolEnd {
            tool_use_id,
            is_error,
            error_message,
        } => {
            assert_eq!(tool_use_id, "toolu_123");
            assert!(!is_error);
            assert!(error_message.is_none());
        }
        other => panic!("expected ToolEnd, got {:?}", other),
    }
}

#[test]
fn parse_tool_result_error() {
    let mut parser = make_parser();
    let line = r#"{"type":"user","message":{"role":"user","content":[{"type":"tool_result","tool_use_id":"toolu_456","is_error":true,"content":"EISDIR: illegal operation on a directory"}]}}"#;
    let events = parser.parse_line(line);
    assert_eq!(events.len(), 1);
    match &events[0] {
        SessionEvent::ToolEnd {
            tool_use_id,
            is_error,
            error_message,
        } => {
            assert_eq!(tool_use_id, "toolu_456");
            assert!(is_error);
            assert!(error_message.is_some());
            assert!(error_message.as_ref().unwrap().contains("EISDIR"));
        }
        other => panic!("expected ToolEnd, got {:?}", other),
    }
}

#[test]
fn parse_tool_result_error_array_content() {
    let mut parser = make_parser();
    let line = r#"{"type":"user","message":{"role":"user","content":[{"type":"tool_result","tool_use_id":"toolu_789","is_error":true,"content":[{"type":"text","text":"Command failed: exit code 1"}]}]}}"#;
    let events = parser.parse_line(line);
    assert_eq!(events.len(), 1);
    match &events[0] {
        SessionEvent::ToolEnd {
            is_error,
            error_message,
            ..
        } => {
            assert!(is_error);
            assert!(error_message.as_ref().unwrap().contains("exit code 1"));
        }
        other => panic!("expected ToolEnd, got {:?}", other),
    }
}

#[test]
fn parse_tool_result_error_no_content() {
    let mut parser = make_parser();
    let line = r#"{"type":"user","message":{"role":"user","content":[{"type":"tool_result","tool_use_id":"toolu_abc","is_error":true}]}}"#;
    let events = parser.parse_line(line);
    assert_eq!(events.len(), 1);
    match &events[0] {
        SessionEvent::ToolEnd {
            is_error,
            error_message,
            ..
        } => {
            assert!(is_error);
            assert!(error_message.is_none());
        }
        other => panic!("expected ToolEnd, got {:?}", other),
    }
}

// -----------------------------------------------------------------------
// extract_error_content
// -----------------------------------------------------------------------

#[test]
fn extract_error_string_content() {
    let block = obj(vec![
        ("type", s("tool_result")),
        ("tool_use_id", s("t1")),
        ("is_error", Json::Bool(true)),
        ("content", s("file not found")),
    ]);
    assert_eq!(
        extract_error_content(&block),
        Some("file not found".to_string())
    );
}

#[test]
fn extract_error_array_content() {
    let block = obj(vec![
        ("type", s("tool_result")),
        ("tool_use_id", s("t2")),
        ("is_error", Json::Bool(true)),
        (
            "content",
            Json::Array(vec![obj(vec![("type", s("text")), ("text", s("permission denied"))])]),
        ),
    ]);
    assert_eq!(
        extract_error_content(&block),
        Some("permission denied".to_string())
    );
}

#[test]
fn extract_error_empty_content() {
    let block = obj(vec![
        ("type", s("tool_result")),
        ("tool_use_id", s("t3")),
        ("is_error", Json::Bool(true)),
        ("content", s("")),
    ]);
    assert_eq!(extract_error_content(&block), None);
}

#[test]
fn extract_error_no_content_field() {
    let block = obj(vec![
        ("type", s("tool_result")),
        ("tool_use_id", s("t4")),
        ("is_error", Json::Bool(true)),
    ]);
    assert_eq!(extract_error_content(&block), None);
}

#[test]
fn extract_error_truncates_long_message() {
    let long_msg = "x".repeat(600);
    let block = obj(vec![
        ("type", s("tool_result")),
        ("tool_use_id", s("t5")),
        ("is_error", Json::Bool(true)),
        ("content", Json::Str(long_msg)),
    ]);
    let result = extract_error_content(&block).unwrap();
    assert!(result.len() <= 503); // 500 + "..."
    assert!(result.ends_with("..."));
}

// -----------------------------------------------------------------------
// Tool use (ToolStart)
// -----------------------------------------------------------------------

#[test]
fn parse_tool_use_read() {
    let mut parser = make_parser();
    let line = r#"{"type":"assistant","message":{"id":"msg_001","role":"assistant","content":[{"type":"tool_use","id":"toolu_read1","name":"Read","input":{"file_path":"/home/user/src/main.rs"}}],"usage":{"input_tokens":100,"output_tokens":50}}}"#;
    let events = parser.parse_line(line);

    let tool_starts: Vec<_> = events
        .iter()
        .filter(|e| matches!(e, SessionEvent::ToolStart { .. }))
        .collect();
    assert_eq!(tool_starts.len(), 1);

    match tool_starts[0] {
        SessionEvent::ToolStart {
            tool_name,
            category,
            description,
            ..
        } => {
            assert_eq!(tool_name, "Read");
            assert_eq!(*category, ToolCategory::Reading);
            assert!(description.contains("main.rs"));
        }
        _ => unreachable!(),
    }
}

#[test]
fn parse_tool_use_bash() {
    let mut parser = make_parser();
    let line = r#"{"type":"assistant","message":{"id":"msg_002","role":"assistant","content":[{"type":"tool_use","id":"toolu_bash1","name":"Bash","input":{"command":"cargo build"}}],"usage":{"input_tokens":100,"output_tokens":50}}}"#;
    let events = parser.parse_line(line);

    let tool_starts: Vec<_> = events
        .iter()
        .filter(|e| matches!(e, SessionEvent::ToolStart { .. }))
        .collect();
    assert_eq!(tool_starts.len(), 1);

    match tool_starts[0] {
        SessionEvent::ToolStart {
            tool_name,
            category,
            description,
            ..
        } => {
            assert_eq!(tool_name, "Bash");
            assert_eq!(*category, ToolCategory::Running);
            assert_eq!(description, "cargo build");
        }
        _ => unreachable!(),
    }
}

// -----------------------------------------------------------------------
// Deduplication
// -----------------------------------------------------------------------

#[test]
fn deduplicate_tool_use_ids() {
    let mut parser = make_parser();
    let line = r#"{"type":"assistant","message":{"id":"msg_003","role":"assistant","content":[{"type":"tool_use","id":"toolu_dup","name":"Read","input":{"file_path":"a.rs"}}],"usage":{"input_tokens":10,"output_tokens":5}}}"#;

    let events1 = parser.parse_line(line);
    let tool_starts1: Vec<_> = events1
        .iter()
        .filter(|e| matches!(e, SessionEvent::ToolStart { .. }))
        .collect();
    assert_eq!(tool_starts1.len(), 1);

    // Same line again — tool_use should be deduplicated
    let events2 = parser.parse_line(line);
    let tool_starts2: Vec<_> = events2
        .iter()
        .filter(|e| matches!(e, SessionEvent::ToolStart { .. }))
        .collect();
    assert_eq!(tool_starts2.len(), 0);
}

#[test]
fn deduplicate_message_ids_for_tokens() {
    let mut parser = make_parser();
    let line = r#"{"type":"assistant","message":{"id":"msg_004","role":"assistant","content":[],"usage":{"input_tokens":1000,"output_tokens":500}}}"#;

    let events1 = parser.parse_line(line);
    let token_events1: Vec<_> = events1
        .iter()
        .filter(|e| matches!(e, SessionEvent::TokenUsage { .. }))
        .collect();
    assert_eq!(token_events1.len(), 1);

    // Same message ID — no new token event
    let events2 = parser.parse_line(line);
    let token_events2: Vec<_> = events2
        .iter()
        .filter(|e| matches!(e, SessionEvent::TokenUsage { .. }))
        .collect();
    assert_eq!(token_events2.len(), 0);
}

// -----------------------------------------------------------------------
// Agent spawning (Task tool)
// -----------------------------------------------------------------------

#[test]
fn parse_task_tool_spawns_agent() {
    let mut parser = make_parser();
    let line = r#"{"type":"assistant","message":{"id":"msg_005","role":"assistant","content":[{"type":"tool_use","id":"toolu_task1","name":"Task","input":{"description":"research codebase","prompt":"find all uses"}}],"usage":{"input_tokens":10,"output_tokens":5}}}"#;

    let events = parser.parse_line(line);

    let agents: Vec<_> = events
        .iter()
        .filter(|e| matches!(e, SessionEvent::AgentSpawned { .. }))
        .collect();
    assert_eq!(agents.len(), 1);

    match agents[0] {
        SessionEvent::AgentSpawned { description, .. } => {
            assert_eq!(description, "research codebase");
        }
        _ => unreachable!(),
    }

    // Should also produce a ToolStart
    let tool_starts: Vec<_> = events
        .iter()
        .filter(|e| matches!(e, SessionEvent::ToolStart { .. }))
        .collect();
    assert_eq!(tool_starts.len(), 1);
}

#[test]
fn parse_task_create_spawns_agent() {
    let mut parser = make_parser();
    let line = r#"{"type":"assistant","message":{"id":"msg_008","role":"assistant","content":[{"type":"tool_use","id":"toolu_tc1","name":"TaskCreate","input":{"subject":"Fix bug","description":"investigate the login issue"}}],"usage":{"input_tokens":10,"output_tokens":5}}}"#;

    let events = parser.parse_line(line);

    let agents: Vec<_> = events
        .iter()
        .filter(|e| matches!(e, SessionEvent::AgentSpawned { .. }))
        .collect();
    assert_eq!(agents.len(), 1);

    match agents[0] {
        SessionEvent::AgentSpawned { description, .. } => {
            assert_eq!(description, "investigate the login issue");
        }
        _ => unreachable!(),
    }
}

// -----------------------------------------------------------------------
// System entries
// -----------------------------------------------------------------------

#[test]
fn parse_turn_complete() {
    let mut parser = make_parser();
    let line = r#"{"type":"system","subtype":"turn_duration","durationMs":5432}"#;
    let events = parser.parse_line(line);
    assert_eq!(events.len(), 1);
    match &events[0] {
        SessionEvent::TurnComplete { duration_ms } => {
            assert_eq!(*duration_ms, 5432);
        }
        other => panic!("expected TurnComplete, got {:?}", other),
    }
}

#[test]
fn parse_context_compaction() {
    let mut parser = make_parser();
    let line = r#"{"type":"system","subtype":"compact_boundary"}"#;
    let events = parser.parse_line(line);
    assert_eq!(events.len(), 1);
    assert!(matches!(events[0], SessionEvent::ContextCompaction));
}

#[test]
fn compact_summary_user_entry_is_skipped() {
    let mut parser = make_parser();
    // isCompactSummary: true marks a context summary that the agent injects as
    // a "user" message. It should not produce a UserPrompt or any event.
    let line = r#"{"type":"user","isCompactSummary":true,"message":{"role":"user","content":"This session is being continued from a previous conversation..."}}"#;
    let events = parser.parse_line(line);
    assert!(events.is_empty(), "expected no events for isCompactSummary entry, got {events:?}");
}

// -----------------------------------------------------------------------
// Thinking
// -----------------------------------------------------------------------

#[test]
fn parse_thinking_event() {
    let mut parser = make_parser();
    let line = r#"{"type":"assistant","message":{"id":"msg_006","role":"assistant","content":[{"type":"thinking","thinking":"analyzing code"}],"usage":{"input_tokens":50,"output_tokens":10}}}"#;
    let events = parser.parse_line(line);

    let thinking: Vec<_> = events
        .iter()
        .filter(|e| matches!(e, SessionEvent::Thinking))
        .collect();
    assert_eq!(thinking.len(), 1);
}

// -----------------------------------------------------------------------
// Progress events
// -----------------------------------------------------------------------

#[test]
fn parse_progress_emits_tool_progress() {
    let mut parser = make_parser();
    let line = r#"{"type":"progress","subtype":"bash_progress","data":{"tool_use_id":"toolu_123","content":"some output"}}"#;
    let events = parser.parse_line(line);
    assert_eq!(events.len(), 1);
    assert!(
        matches!(events[0], SessionEvent::ToolProgress),
        "expected ToolProgress, got {:?}",
        events[0]
    );
}

#[test]
fn parse_progress_hook_progress() {
    let mut parser = make_parser();
    let line = r#"{"type":"progress","subtype":"hook_progress","data":{}}"#;
    let events = parser.parse_line(line);
    assert_eq!(events.len(), 1);
    assert!(matches!(events[0], SessionEvent::ToolProgress));
}

#[test]
fn parse_progress_agent_progress() {
    let mut parser = make_parser();
    let line = r#"{"type":"progress","subtype":"agent_progress","data":{"message":"working on it"}}"#;
    let events = parser.parse_line(line);
    assert_eq!(events.len(), 1);
    assert!(matches!(events[0], SessionEvent::ToolProgress));
}

#[test]
fn parse_progress_mcp_progress() {
    let mut parser = make_parser();
    let line = r#"{"type":"progress","subtype":"mcp_progress","data":{}}"#;
    let events = parser.parse_line(line);
    assert_eq!(events.len(), 1);
    assert!(matches!(events[0], SessionEvent::ToolProgress));
}

#[test]
fn parse_progress_minimal() {
    let mut parser = make_parser();
    // Minimal progress entry with just the type
    let line = r#"{"type":"progress"}"#;
    let events = parser.parse_line(line);
    assert_eq!(events.len(), 1);
    assert!(matches!(events[0], SessionEvent::ToolProgress));
}

// -----------------------------------------------------------------------
// Edge cases
// -----------------------------------------------------------------------

#[test]
fn parse_invalid_json_no_panic() {
    let mut parser = make_parser();
    let events = parser.parse_line("not valid json{{{");
    assert!(events.is_empty());
}

#[test]
fn parse_empty_line_no_panic() {
    let mut parser = make_parser();
    let events = parser.parse_line("");
    assert!(events.is_empty());
}

#[test]
fn parse_ignored_entry_types() {
    let mut parser = make_parser();
    let events = parser.parse_line(r#"{"type":"file-history-snapshot"}"#);
    assert!(events.is_empty());
    let events = parser.parse_line(r#"{"type":"queue-operation"}"#);
    assert!(events.is_empty());
}

#[test]
fn parse_missing_content_no_panic() {
    let mut parser = make_parser();
    let line = r#"{"type":"user","message":{"role":"user"}}"#;
    let events = parser.parse_line(line);
    assert!(events.is_empty());
}

#[test]
fn parse_missing_message_no_panic() {
    let mut parser = make_parser();
    let line = r#"{"type":"user"}"#;
    let events = parser.parse_line(line);
    assert!(events.is_empty());
}

#[test]
fn parse_tool_result_empty_id_skipped() {
    let mut parser = make_parser();
    let line = r#"{"type":"user","message":{"role":"user","content":[{"type":"tool_result","tool_use_id":"","is_error":false}]}}"#;
    let events = parser.parse_line(line);
    assert!(events.is_empty());
}

#[test]
fn parse_mcp_tool_categorized() {
    let mut parser = make_parser();
    let line = r#"{"type":"assistant","message":{"id":"msg_007","role":"assistant","content":[{"type":"tool_use","id":"toolu_mcp1","name":"mcp__db__query","input":{}}],"usage":{"input_tokens":10,"output_tokens":5}}}"#;
    let events = parser.parse_line(line);

    let tool_starts: Vec<_> = events
        .iter()
        .filter(|e| matches!(e, SessionEvent::ToolStart { .. }))
        .collect();
    assert_eq!(tool_starts.len(), 1);
    match tool_starts[0] {
        SessionEvent::ToolStart { category, .. } => {
            assert_eq!(*category, ToolCategory::Mcp);
        }
        _ => unreachable!(),
    }
}

// -----------------------------------------------------------------------
// /exit detection and noise filtering
// -----------------------------------------------------------------------

#[test]
fn parse_exit_command_emits_session_end() {
    let mut parser = make_parser();
    let line = r#"{"type":"user","message":{"role":"user","content":"<command-name>/exit</command-name>"}}"#;
    let events = parser.parse_line(line);
    assert_eq!(events.len(), 1);
    assert!(
        matches!(events[0], SessionEvent::SessionEnd),
        "expected SessionEnd, got {:?}",
        events[0]
    );
}

#[test]
fn parse_meta_entry_skipped() {
    let mut parser = make_parser();
    let line = r#"{"type":"user","isMeta":true,"message":{"role":"user","content":"some caveat boilerplate"}}"#;
    let events = parser.parse_line(line);
    assert!(
        events.is_empty(),
        "expected no events for isMeta entry, got {events:?}"
    );
}

#[test]
fn parse_local_command_stdout_skipped() {
    let mut parser = make_parser();
    let line = r#"{"type":"user","message":{"role":"user","content":"<local-command-stdout>See ya!</local-command-stdout>"}}"#;
    let events = parser.parse_line(line);
    assert!(
        events.is_empty(),
        "expected no events for local-command-stdout, got {events:?}"
    );
}

#[test]
fn parser_starts_each_tool_once() {
    let mut parser = make_parser();
    let a = r#"{"type":"assistant","message":{"id":"m1","content":[{"type":"tool_use","id":"t1","name":"Read","input":{}},{"type":"tool_use","id":"t1","name":"Read","input":{}}]}}"#;
    let b = r#"{"type":"assistant","message":{"id":"m2","content":[{"type":"tool_use","id":"t1","name":"Bash","input":{}},{"type":"tool_use","id":"t2","name":"Bash","input":{}}]}}"#;
    let mut started: Vec<String> = Vec::new();
    for line in [a, b, a] {
        for ev in parser.parse_line(line) {
            if let SessionEvent::ToolStart { tool_use_id, .. } = ev {
                started.push(tool_use_id);
            }
        }
    }
    assert_eq!(started, vec!["t1".to_string(), "t2".to_string()]);
}

#[test]
fn parser_reports_each_token_count_and_spawn_once() {
    let mut parser = make_parser();
    let a = r#"{"type":"assistant","message":{"id":"m1","content":[{"type":"tool_use","id":"k1","name":"Task","input":{"description":"dig"}}],"usage":{"input_tokens":3,"output_tokens":4}}}"#;
    let b = r#"{"type":"assistant","message":{"id":"m2","content":[],"usage":{"input_tokens":1,"output_tokens":1}}}"#;
    let mut usages = 0;
    let mut spawns: Vec<String> = Vec::new();
    for line in [a, a, b, b, a] {
        for ev in parser.parse_line(line) {
            match ev {
                SessionEvent::TokenUsage { .. } => usages += 1,
                SessionEvent::AgentSpawned { agent_id, .. } => spawns.push(agent_id),
                _ => {}
            }
        }
    }
    assert_eq!(usages, 2);
    assert_eq!(spawns, vec!["k1".to_string()]);
}
