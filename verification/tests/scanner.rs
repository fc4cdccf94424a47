use dev_hud::events::{EventSource, SessionEvent};
use dev_hud::watcher::scanner::{
    is_recent, jsonl_stem, select_active, sort_newest_first, subagents_dir_of, FileRef, Scanner,
    ScannerError,
    SessionInfo,
};
use dev_hud::watcher::{format_time_hms, session_start_event, KnownSessions};

fn info(id: &str, modified: i128) -> SessionInfo {
    SessionInfo {
        path: format!("/home/u/logs/p/{id}.jsonl"),
        session_id: id.to_string(),
        project_slug: "p".to_string(),
        modified,
    }
}

#[test]
fn scanner_jsonl_stems() {
    assert_eq!(jsonl_stem("abc.jsonl").as_deref(), Some("abc"));
    assert_eq!(jsonl_stem("a.b.jsonl").as_deref(), Some("a.b"));
    assert_eq!(jsonl_stem(".x.jsonl").as_deref(), Some(".x"));
    assert_eq!(jsonl_stem(".jsonl"), None);
    assert_eq!(jsonl_stem("abc.json"), None);
    assert_eq!(jsonl_stem("jsonl"), None);
}

#[test]
fn scanner_recent_threshold() {
    assert!(is_recent(10_000, 10_000 - 1800));
    assert!(!is_recent(10_000, 10_000 - 1801));
    assert!(is_recent(10_000, 20_000));
}

#[test]
fn scanner_sorts_newest_first_stably() {
    let sorted = sort_newest_first(vec![info("a", 5), info("b", 9), info("c", 5), info("d", 7)]);
    let ids: Vec<&str> = sorted.iter().map(|s| s.session_id.as_str()).collect();
    assert_eq!(ids, vec!["b", "d", "a", "c"]);
}

#[test]
fn scanner_subagents_dir_beside_log() {
    assert_eq!(subagents_dir_of("/p/proj/sess.jsonl", "sess"), "/p/proj/sess/subagents");
    assert_eq!(subagents_dir_of("sess.jsonl", "sess"), "sess/subagents");
}

#[test]
fn scanner_follows_lines_and_offsets() {
    let mut sc = match Scanner::from_session_info(&info("s", 1), false) {
        Ok(s) => s,
        Err(e) => panic!("{}", e.message()),
    };
    assert_eq!(sc.session_id(), "s");
    assert_eq!(sc.project_slug(), "p");
    assert_eq!(sc.subagents_dir(), None);
    assert_eq!(
        sc.subagents_dir_candidate().as_deref(),
        Some("/home/u/logs/p/s/subagents")
    );
    let ev = sc.take_line(FileRef::Main, 5, "  \n").unwrap();
    assert!(ev.is_empty());
    assert_eq!(sc.offset(FileRef::Main), Some(5));
    let line = r#"{"type":"system","subtype":"compact_boundary"}"#;
    let ev = sc.take_line(FileRef::Main, line.len() as u64 + 1, line).unwrap();
    assert!(matches!(ev[..], [SessionEvent::ContextCompaction]));
    assert_eq!(sc.offset(FileRef::Main), Some(5 + line.len() as u64 + 1));
    assert!(sc.track_subagent_file("agent-1.jsonl".into(), "/x/agent-1.jsonl".into()));
    assert!(!sc.track_subagent_file("agent-1.jsonl".into(), "/y/agent-1.jsonl".into()));
    assert_eq!(sc.subagent_count(), 1);
    sc.take_line(FileRef::SubAgent(0), 3, "{}").unwrap();
    assert_eq!(sc.subagent_file(0), ("/x/agent-1.jsonl".to_string(), 3));
    sc.set_subagents_dir("/x".into());
    assert_eq!(sc.subagents_dir_candidate(), None);
}

#[test]
fn scanner_rejects_uncuttable_teammate_line() {
    let mut sc = Scanner::from_session_info(&info("s", 1), true).unwrap_or_else(|_| unreachable!());
    let bad = r#"{"type":"user","message":{"content":"<teammate-message </teammate-message> teammate_id=\"x\">"}}"#;
    assert!(sc.take_line(FileRef::Main, 1, bad).is_none());
    assert_eq!(sc.offset(FileRef::Main), Some(1));
}

#[test]
fn scanner_error_messages() {
    assert_eq!(ScannerError::Io("disk".into()).message(), "I/O error: disk");
    assert_eq!(ScannerError::NoSessions("none".into()).message(), "No sessions found: none");
}

#[test]
fn watcher_time_format() {
    assert_eq!(format_time_hms(Some(3661)), "01:01:01");
    assert_eq!(format_time_hms(Some(86_400 + 5)), "00:00:05");
    assert_eq!(format_time_hms(None), "00:00:00");
}

#[test]
fn watcher_start_event_and_known_ids() {
    let i = info("abc", 0);
    let t = session_start_event(&i, "10:00:00".into());
    assert_eq!(t.session_id, "abc");
    match t.event {
        SessionEvent::SessionStart { session_id, project, timestamp } => {
            assert_eq!(session_id, "abc");
            assert_eq!(project, "p");
            assert_eq!(timestamp, "10:00:00");
        }
        other => panic!("expected SessionStart, got {:?}", other),
    }
    let mut known = KnownSessions::new();
    assert!(known.insert(&"abc".to_string()));
    assert!(!known.insert(&"abc".to_string()));
    assert!(known.contains(&"abc".to_string()));
    assert!(!known.contains(&"abd".to_string()));
}

#[test]
fn scanner_sources_of_files() {
    let mut sc = Scanner::from_session_info(&info("s", 1), false).unwrap_or_else(|_| unreachable!());
    assert_eq!(sc.source_of(FileRef::Main), EventSource::Main);
    sc.track_subagent_file("agent-abc123.jsonl".into(), "/x/agent-abc123.jsonl".into());
    sc.track_subagent_file("notes".into(), "/x/notes".into());
    assert_eq!(
        sc.source_of(FileRef::SubAgent(0)),
        EventSource::SubAgent { agent_id: "agent-abc123".to_string() }
    );
    assert_eq!(sc.source_of(FileRef::SubAgent(1)), EventSource::SubAgent { agent_id: "notes".to_string() });
    assert_eq!(sc.source_of(FileRef::SubAgent(5)), EventSource::Main);
}

#[test]
fn select_active_keeps_recent_newest_first() {
    let now: u64 = 10_000;
    let candidates = vec![
        (info("old", 1), now - 1801),
        (info("a", 5), now - 1800),
        (info("b", 9), now - 10),
        (info("future", 7), now + 50),
    ];
    let ids: Vec<String> = select_active(now, &candidates).into_iter().map(|s| s.session_id).collect();
    assert_eq!(ids, vec!["b".to_string(), "future".to_string(), "a".to_string()]);
    assert!(select_active(now, &Vec::new()).is_empty());
}
