use dev_hud::events::{EventSource, SessionEvent, TaggedEvent, ToolCategory};
use dev_hud::session::{format_time_now, ClaudeWidget, Clock};

fn clock(secs: u64) -> Clock {
    Clock { mono_ns: secs * 1_000_000_000, wall_ns: (12 * 3600 + secs as i128) * 1_000_000_000 }
}

fn main_event(id: &str, event: SessionEvent) -> TaggedEvent {
    TaggedEvent { session_id: id.to_string(), event, source: EventSource::Main }
}

fn start(id: &str) -> TaggedEvent {
    main_event(
        id,
        SessionEvent::SessionStart {
            session_id: id.to_string(),
            project: "proj".to_string(),
            timestamp: "12:00:00".to_string(),
        },
    )
}

#[test]
fn widget_prompt_and_tool() {
    let mut w = ClaudeWidget::new();
    w.process_event(start("s"), clock(0));
    w.process_event(main_event("s", SessionEvent::UserPrompt { text: "fix it".into() }), clock(1));
    w.process_event(
        main_event(
            "s",
            SessionEvent::ToolStart {
                tool_name: "Bash".into(),
                tool_use_id: "t1".into(),
                category: ToolCategory::Running,
                description: "cargo test".into(),
            },
        ),
        clock(2),
    );
    assert_eq!(w.sessions.len(), 1);
    assert_eq!(w.activity_logs[0].len(), 2);
    assert_eq!(w.activity_logs[0][0].timestamp, "12:00:01");
    assert!(w.sessions[0].current_tool.is_some());
    w.process_event(
        main_event(
            "s",
            SessionEvent::ToolEnd { tool_use_id: "t1".into(), is_error: true, error_message: Some("boom".into()) },
        ),
        clock(3),
    );
    assert!(w.sessions[0].current_tool.is_none());
    assert!(w.activity_logs[0][1].is_error);
    assert_eq!(w.activity_logs[0][1].detail, "boom");
}

#[test]
fn widget_subagent_events_go_to_subagent() {
    let mut w = ClaudeWidget::new();
    w.process_event(start("s"), clock(0));
    w.process_event(
        TaggedEvent {
            session_id: "s".into(),
            event: SessionEvent::Thinking,
            source: EventSource::SubAgent { agent_id: "a1".into() },
        },
        clock(1),
    );
    assert_eq!(w.sessions[0].subagents.len(), 1);
    assert_eq!(w.sessions[0].subagents[0].agent_id, "a1");
}

#[test]
fn widget_exit_archives_after_grace() {
    let mut w = ClaudeWidget::new();
    w.process_event(start("s"), clock(0));
    w.process_event(main_event("s", SessionEvent::SessionEnd), clock(1));
    assert!(w.sessions[0].exited_at.is_some());
    w.tick(clock(100));
    assert!(!w.sessions[0].archived);
    w.tick(clock(302));
    assert!(w.sessions[0].archived);
}

#[test]
fn widget_time_of_day() {
    assert_eq!(format_time_now(clock(61)), "12:01:01");
    assert_eq!(format_time_now(Clock { mono_ns: 0, wall_ns: -5 }), "00:00:00");
}

fn sub_event(id: &str, agent: &str, event: SessionEvent) -> TaggedEvent {
    TaggedEvent {
        session_id: id.to_string(),
        event,
        source: EventSource::SubAgent { agent_id: agent.to_string() },
    }
}

#[test]
fn widget_subagent_keeps_one_entry_per_id() {
    let mut w = ClaudeWidget::new();
    w.process_event(start("s"), clock(0));
    w.process_event(sub_event("s", "a1", SessionEvent::Thinking), clock(1));
    w.process_event(sub_event("s", "a2", SessionEvent::Thinking), clock(1));
    w.process_event(
        sub_event(
            "s",
            "a1",
            SessionEvent::ToolStart {
                tool_name: "AskUserQuestion".into(),
                tool_use_id: "q".into(),
                category: ToolCategory::Awaiting,
                description: "which?".into(),
            },
        ),
        clock(2),
    );
    let subs = &w.sessions[0].subagents;
    assert_eq!(subs.len(), 2);
    assert_eq!(subs[0].agent_id, "a1");
    assert!(subs[0].needs_attention);
    assert!(!subs[1].needs_attention);
    w.process_event(sub_event("s", "a1", SessionEvent::ToolProgress), clock(3));
    assert_eq!(w.sessions[0].subagents.len(), 2);
    assert!(!w.sessions[0].subagents[0].needs_attention);
}

#[test]
fn widget_tick_keeps_busy_subagents_and_only_adds_flags() {
    let mut w = ClaudeWidget::new();
    w.process_event(start("s"), clock(0));
    w.process_event(sub_event("s", "busy", SessionEvent::Thinking), clock(0));
    w.process_event(sub_event("s", "idle", SessionEvent::TurnComplete { duration_ms: 1 }), clock(0));
    w.process_event(sub_event("s", "late", SessionEvent::Thinking), clock(0));
    w.sessions[0].needs_attention = true;
    let frame = w.spinner_frame;
    w.tick(clock(1000));
    let ids: Vec<&str> = w.sessions[0].subagents.iter().map(|s| s.agent_id.as_str()).collect();
    assert_eq!(ids, vec!["busy", "late"]);
    assert!(w.sessions[0].needs_attention);
    assert!(!w.sessions[0].archived);
    assert_eq!(w.spinner_frame, frame + 1);
    w.spinner_frame = usize::MAX;
    w.tick(clock(1001));
    assert_eq!(w.spinner_frame, 0);
}

#[test]
fn widget_session_count_grows_only_on_new_starts() {
    let mut w = ClaudeWidget::new();
    w.process_event(start("s1"), clock(0));
    w.process_event(start("s2"), clock(1));
    w.process_event(start("s1"), clock(2));
    w.process_event(main_event("s3", SessionEvent::Thinking), clock(3));
    w.process_event(sub_event("s4", "a", SessionEvent::Thinking), clock(3));
    assert_eq!(w.sessions.len(), 2);
    assert_eq!(w.sessions[0].session_id, "s1");
    assert_eq!(w.sessions[1].session_id, "s2");
    assert_eq!(w.sessions[0].project_slug, "proj");
}
