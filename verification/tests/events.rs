use dev_hud::events::{EventSource, ToolCategory};

#[test]
fn reading_tools() {
    assert_eq!(ToolCategory::from_tool_name("Read"), ToolCategory::Reading);
    assert_eq!(ToolCategory::from_tool_name("Glob"), ToolCategory::Reading);
    assert_eq!(ToolCategory::from_tool_name("Grep"), ToolCategory::Reading);
    assert_eq!(
        ToolCategory::from_tool_name("ListMcpResourcesTool"),
        ToolCategory::Reading
    );
    assert_eq!(
        ToolCategory::from_tool_name("ReadMcpResourceTool"),
        ToolCategory::Reading
    );
    assert_eq!(
        ToolCategory::from_tool_name("ToolSearch"),
        ToolCategory::Reading
    );
}

#[test]
fn writing_tools() {
    assert_eq!(ToolCategory::from_tool_name("Edit"), ToolCategory::Writing);
    assert_eq!(ToolCategory::from_tool_name("Write"), ToolCategory::Writing);
    assert_eq!(
        ToolCategory::from_tool_name("NotebookEdit"),
        ToolCategory::Writing
    );
    assert_eq!(
        ToolCategory::from_tool_name("MultiEdit"),
        ToolCategory::Writing
    );
}

#[test]
fn running_tools() {
    assert_eq!(ToolCategory::from_tool_name("Bash"), ToolCategory::Running);
}

#[test]
fn spawning_tools() {
    assert_eq!(
        ToolCategory::from_tool_name("Task"),
        ToolCategory::Spawning
    );
    assert_eq!(
        ToolCategory::from_tool_name("TaskCreate"),
        ToolCategory::Spawning
    );
    assert_eq!(
        ToolCategory::from_tool_name("TaskUpdate"),
        ToolCategory::Spawning
    );
    assert_eq!(
        ToolCategory::from_tool_name("TaskList"),
        ToolCategory::Spawning
    );
    assert_eq!(
        ToolCategory::from_tool_name("TaskGet"),
        ToolCategory::Spawning
    );
    assert_eq!(
        ToolCategory::from_tool_name("TaskOutput"),
        ToolCategory::Spawning
    );
    assert_eq!(
        ToolCategory::from_tool_name("TaskStop"),
        ToolCategory::Spawning
    );
    assert_eq!(
        ToolCategory::from_tool_name("SendMessage"),
        ToolCategory::Spawning
    );
    assert_eq!(
        ToolCategory::from_tool_name("TeamCreate"),
        ToolCategory::Spawning
    );
    assert_eq!(
        ToolCategory::from_tool_name("TeamDelete"),
        ToolCategory::Spawning
    );
    assert_eq!(
        ToolCategory::from_tool_name("EnterWorktree"),
        ToolCategory::Spawning
    );
}

#[test]
fn web_tools() {
    assert_eq!(
        ToolCategory::from_tool_name("WebSearch"),
        ToolCategory::Web
    );
    assert_eq!(
        ToolCategory::from_tool_name("WebFetch"),
        ToolCategory::Web
    );
}

#[test]
fn awaiting_tools() {
    assert_eq!(
        ToolCategory::from_tool_name("AskUserQuestion"),
        ToolCategory::Awaiting
    );
}

#[test]
fn mcp_tools() {
    assert_eq!(
        ToolCategory::from_tool_name("mcp__db__query"),
        ToolCategory::Mcp
    );
    assert_eq!(
        ToolCategory::from_tool_name("mcp__excel__read"),
        ToolCategory::Mcp
    );
    assert_eq!(
        ToolCategory::from_tool_name("mcp__confluence__get_page"),
        ToolCategory::Mcp
    );
}

#[test]
fn unknown_tools() {
    assert_eq!(
        ToolCategory::from_tool_name("SomethingNew"),
        ToolCategory::Unknown
    );
    assert_eq!(ToolCategory::from_tool_name(""), ToolCategory::Unknown);
    assert_eq!(
        ToolCategory::from_tool_name("EnterPlanMode"),
        ToolCategory::Unknown
    );
    assert_eq!(
        ToolCategory::from_tool_name("Skill"),
        ToolCategory::Unknown
    );
}

#[test]
fn event_source_main() {
    let source = EventSource::Main;
    assert_eq!(source, EventSource::Main);
}

#[test]
fn event_source_subagent() {
    let source = EventSource::SubAgent {
        agent_id: "agent-abc123".to_string(),
    };
    match source {
        EventSource::SubAgent { ref agent_id } => {
            assert_eq!(agent_id, "agent-abc123");
        }
        _ => panic!("expected SubAgent"),
    }
}
