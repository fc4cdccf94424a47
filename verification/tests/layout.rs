use dev_hud::events::ToolCategory;
use dev_hud::layout::{
    archived_session_indices, buffer_window_start, displayed_subagents, entry_mark, exit_label,
    session_icon, subagent_icon, subagent_text, visible_session_indices, EntryMark,
};
use dev_hud::session::{ActiveTool, ActivityEntry, ClaudeWidget, Session, SessionKind, SubAgent};

fn session(id: &str, archived: bool) -> Session {
    Session {
        session_id: id.to_string(),
        project_slug: "p".to_string(),
        active: false,
        kind: SessionKind::Terminal,
        current_tool: None,
        activity: String::new(),
        exited_at: None,
        archived,
        last_event_time: None,
        needs_attention: false,
        subagents: Vec::new(),
    }
}

fn sub(active: bool, attention: bool, desc: &str, activity: &str) -> SubAgent {
    SubAgent {
        agent_id: "a".to_string(),
        description: desc.to_string(),
        active,
        current_tool: None,
        activity: activity.to_string(),
        last_event_time: None,
        needs_attention: attention,
    }
}

#[test]
fn layout_visible_sessions_are_last_six_live() {
    let mut w = ClaudeWidget::new();
    for i in 0..9 {
        w.sessions.push(session(&format!("s{i}"), i == 7));
        w.activity_logs.push(Vec::new());
    }
    assert_eq!(visible_session_indices(&w), vec![2, 3, 4, 5, 6, 8]);
    assert_eq!(archived_session_indices(&w), vec![7]);
}

#[test]
fn layout_subagents_shown() {
    let subs = vec![
        sub(true, false, "a", ""),
        sub(false, false, "b", ""),
        sub(false, true, "c", ""),
        sub(true, false, "d", ""),
    ];
    assert_eq!(displayed_subagents(&subs, false), (vec![0, 2], 1));
    assert_eq!(displayed_subagents(&subs, true), (vec![0, 1, 2, 3], 0));
}

#[test]
fn layout_session_icons() {
    let mut w = ClaudeWidget::new();
    w.spinner_frame = 4;
    let mut s = session("s", false);
    assert_eq!(session_icon(&w, &s, false), "\u{f489}");
    s.active = true;
    assert_eq!(session_icon(&w, &s, false), "⠙");
    s.current_tool = Some(ActiveTool {
        tool_name: "Read".into(),
        tool_use_id: "t".into(),
        category: ToolCategory::Reading,
        description: String::new(),
    });
    assert_eq!(session_icon(&w, &s, false), "◎");
    s.needs_attention = true;
    assert_eq!(session_icon(&w, &s, false), "\u{f0f3}");
    s.exited_at = Some(0);
    assert_eq!(session_icon(&w, &s, false), "\u{f04d}");
    let done = sub(false, false, "x", "");
    assert_eq!(subagent_icon(&w, &done), "\u{f00c}");
}

#[test]
fn layout_subagent_text() {
    let s = sub(true, false, "research the codebase thoroughly today", "Read(main.rs)");
    assert_eq!(subagent_text(&s, 64), "research the codebase thoro...: Read(main.rs)");
    let idle = sub(false, false, "", "done");
    assert_eq!(subagent_text(&idle, 64), "done");
}

#[test]
fn layout_exit_labels() {
    assert_eq!(exit_label(None), "archived");
    assert_eq!(exit_label(Some(-1)), "exited");
    assert_eq!(exit_label(Some((13 * 3600 + 5 * 60 + 9) * 1_000_000_000)), "exited 13:05");
}

#[test]
fn layout_entry_marks() {
    let mut e = ActivityEntry {
        timestamp: "1".into(),
        tool: "Bash".into(),
        summary: "\u{f071} BLOCKED: rm".into(),
        detail: String::new(),
        is_error: true,
        category: ToolCategory::Running,
    };
    assert_eq!(entry_mark(&e, true, true), EntryMark::Blocked);
    e.summary = "cargo test".into();
    assert_eq!(entry_mark(&e, true, true), EntryMark::Error);
    e.is_error = false;
    assert_eq!(entry_mark(&e, true, true), EntryMark::Running);
    assert_eq!(entry_mark(&e, false, true), EntryMark::Plain);
}

#[test]
fn layout_buffer_window() {
    assert_eq!(buffer_window_start(100, 16), 84);
    assert_eq!(buffer_window_start(3, 16), 0);
}

use dev_hud::layout::{
    activity_text_limit, session_tone, shell_body, shown_shell_indices, subagent_tone,
    summarized_shell_index, summary_line, RowTone, ShellLine,
};
use dev_hud::shell::config::{ShellConfig, ShellMode, Visibility};
use dev_hud::shell::{ShellInstance, ShellState};
use std::collections::VecDeque;

fn instance(label: &str, visible: Visibility, lines: &[&str]) -> ShellInstance {
    ShellInstance {
        config: ShellConfig {
            label: label.to_string(),
            command: "true".to_string(),
            mode: None,
            lines: 2,
            visible,
            cols: 6,
            rows: 24,
            font_size: None,
            font_size_texts: Vec::new(),
        },
        buffer: lines.iter().map(|l| l.to_string()).collect::<VecDeque<String>>(),
        exit_code: None,
        last_update: 0,
        error: None,
        resolved_mode: ShellMode::Stream,
        spawned_at: 0,
    }
}

#[test]
fn layout_activity_text_limits() {
    assert_eq!(activity_text_limit(true), 512);
    assert_eq!(activity_text_limit(false), 64);
}

#[test]
fn layout_row_tones() {
    let mut s = session("s", false);
    assert_eq!(session_tone(&s, false), RowTone::Plain);
    s.needs_attention = true;
    assert_eq!(session_tone(&s, false), RowTone::Attention);
    assert_eq!(session_tone(&s, true), RowTone::Hovered);
    s.exited_at = Some(5);
    assert_eq!(session_tone(&s, false), RowTone::Fading);
    s.archived = true;
    assert_eq!(session_tone(&s, false), RowTone::Plain);

    assert_eq!(subagent_tone(&sub(true, true, "a", "")), RowTone::Attention);
    assert_eq!(subagent_tone(&sub(true, false, "a", "")), RowTone::Plain);
    assert_eq!(subagent_tone(&sub(false, false, "a", "")), RowTone::Fading);
}

#[test]
fn layout_shells_shown_and_summarized() {
    let st = ShellState {
        instances: vec![
            instance("a", Visibility::Focus, &["x"]),
            instance("b", Visibility::Always, &["y"]),
            instance("c", Visibility::Focus, &["one", "a long line"]),
        ],
        most_recent: Some(2),
    };
    assert_eq!(shown_shell_indices(&st, true), vec![0, 1, 2]);
    assert_eq!(shown_shell_indices(&st, false), vec![1]);
    assert_eq!(summarized_shell_index(&st, true), None);
    assert_eq!(summarized_shell_index(&st, false), Some(2));
    assert_eq!(summary_line(&st.instances[2]), "a l...");

    let mut st2 = st;
    st2.most_recent = Some(1);
    assert_eq!(summarized_shell_index(&st2, false), None);
    st2.most_recent = Some(9);
    assert_eq!(summarized_shell_index(&st2, false), None);

    let mut failed = instance("d", Visibility::Focus, &[]);
    assert_eq!(summary_line(&failed), "");
    failed.error = Some("spawn failed".to_string());
    assert_eq!(summary_line(&failed), "spa...");
}

#[test]
fn layout_shell_body() {
    let mut inst = instance("a", Visibility::Focus, &["1", "2", "three!!"]);
    assert_eq!(
        shell_body(&inst, false),
        vec![ShellLine::Output("2".to_string()), ShellLine::Output("thr...".to_string())]
    );
    inst.exit_code = Some(3);
    assert_eq!(shell_body(&inst, false).len(), 2);
    assert_eq!(shell_body(&inst, true)[2], ShellLine::Exit(3));

    let mut empty = instance("b", Visibility::Focus, &[]);
    assert_eq!(shell_body(&empty, false), Vec::<ShellLine>::new());
    assert_eq!(shell_body(&empty, true), vec![ShellLine::Waiting]);
    empty.exit_code = Some(0);
    assert_eq!(shell_body(&empty, true), vec![ShellLine::Exit(0)]);
    empty.error = Some("boom".to_string());
    assert_eq!(shell_body(&empty, true), vec![ShellLine::Failure("bo".to_string())]);
}

#[test]
fn layout_project_and_archive_pill() {
    let mut s = session("s", false);
    assert!(!dev_hud::layout::shows_project(&s, false));
    assert!(dev_hud::layout::shows_project(&s, true));
    s.exited_at = Some(1);
    assert!(dev_hud::layout::shows_project(&s, false));

    let mut w = ClaudeWidget::new();
    w.sessions.push(session("a", false));
    w.activity_logs.push(Vec::new());
    assert_eq!(dev_hud::layout::archive_pill_count(&w, true), None);
    w.sessions.push(session("b", true));
    w.activity_logs.push(Vec::new());
    assert_eq!(dev_hud::layout::archive_pill_count(&w, true), Some(1));
    assert_eq!(dev_hud::layout::archive_pill_count(&w, false), None);
}

#[test]
fn layout_poll_schedules() {
    assert!(dev_hud::watcher::rescan_due(10));
    assert!(!dev_hud::watcher::rescan_due(11));
    assert!(dev_hud::shell::config_check_due(80));
    assert!(!dev_hud::shell::config_check_due(41));
}
