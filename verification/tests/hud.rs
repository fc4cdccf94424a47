use dev_hud::events::{EventSource, SessionEvent, TaggedEvent};
use dev_hud::hud::{Effect, Hud, HudMode, HudMsg, SurfaceKind};
use dev_hud::session::Clock;
use dev_hud::theme::ThemeMode;

fn now() -> Clock {
    Clock { mono_ns: 5_000_000_000, wall_ns: 1_700_000_000_000_000_000 }
}

fn boot() -> Hud<u64> {
    let (hud, effects) = Hud::new(1, None, true, false, 2, 8, 12);
    assert_eq!(effects.len(), 1);
    assert!(matches!(effects[0], Effect::Open { id: 1, kind: SurfaceKind::Overlay, output: None }));
    hud
}

fn start(id: &str) -> HudMsg {
    HudMsg::WatcherEvent(TaggedEvent {
        session_id: id.to_string(),
        event: SessionEvent::SessionStart {
            session_id: id.to_string(),
            project: "proj".to_string(),
            timestamp: "12:00:00".to_string(),
        },
        source: EventSource::Main,
    })
}

#[test]
fn hud_boots_visible_and_dark() {
    let hud = boot();
    assert_eq!(hud.mode, HudMode::Visible);
    assert_eq!(hud.surface_id, Some(1));
    assert!(hud.dark);
    assert!(hud.claude.is_some());
    assert!(hud.shells.is_none());
}

#[test]
fn hud_toggle_visibility_removes_and_reopens() {
    let mut hud = boot();
    let e = hud.update(HudMsg::ToggleVisibility, 2, now());
    assert_eq!(hud.mode, HudMode::Hidden);
    assert_eq!(hud.surface_id, None);
    assert!(matches!(e[..], [Effect::Remove(1)]));
    let e = hud.update(HudMsg::ToggleVisibility, 3, now());
    assert_eq!(hud.mode, HudMode::Visible);
    assert_eq!(hud.surface_id, Some(3));
    assert!(matches!(e[..], [Effect::Open { id: 3, kind: SurfaceKind::Overlay, .. }]));
}

#[test]
fn hud_focus_swaps_the_overlay() {
    let mut hud = boot();
    let e = hud.update(HudMsg::ToggleFocus, 2, now());
    assert_eq!(hud.mode, HudMode::Focused);
    assert!(matches!(
        e[..],
        [Effect::Remove(1), Effect::Open { id: 2, kind: SurfaceKind::Interactive, .. }]
    ));
}

#[test]
fn hud_session_modal_needs_focus_and_session() {
    let mut hud = boot();
    assert!(hud.update(HudMsg::OpenSessionModal(0), 2, now()).is_empty());
    hud.update(start("s1"), 2, now());
    assert!(hud.update(HudMsg::OpenSessionModal(0), 2, now()).is_empty());
    hud.update(HudMsg::ToggleFocus, 3, now());
    assert!(hud.update(HudMsg::OpenSessionModal(1), 4, now()).is_empty());
    let e = hud.update(HudMsg::OpenSessionModal(0), 5, now());
    assert!(matches!(e[..], [Effect::Open { id: 5, kind: SurfaceKind::Modal, .. }]));
    assert_eq!(hud.modal.as_ref().unwrap().session_index, 0);
    hud.update(HudMsg::SelectActivity(3), 6, now());
    assert_eq!(hud.modal.as_ref().unwrap().selected_entry, Some(3));
    hud.update(HudMsg::SelectActivity(3), 6, now());
    assert_eq!(hud.modal.as_ref().unwrap().selected_entry, None);
    let e = hud.update(HudMsg::ToggleFocus, 7, now());
    assert!(hud.modal.is_none());
    assert!(matches!(
        e[..],
        [Effect::Remove(5), Effect::Remove(3), Effect::Open { id: 7, kind: SurfaceKind::Overlay, .. }]
    ));
}

#[test]
fn hud_demo_widget_has_four_sessions() {
    let mut hud = boot();
    hud.update(HudMsg::DemoClaudeToggle, 2, now());
    let demo = hud.demo_claude.as_ref().unwrap();
    assert_eq!(demo.sessions.len(), 4);
    assert_eq!(demo.activity_logs.len(), 4);
    assert_eq!(demo.sessions[2].session_id, "demo-0000-0000-0000-000000000003");
    hud.update(HudMsg::DemoClaudeToggle, 3, now());
    assert!(hud.demo_claude.is_none());
}

#[test]
fn hud_font_change_wraps() {
    let mut hud = boot();
    hud.update(HudMsg::FontChange, 2, now());
    assert_eq!(hud.font_index, 1);
    hud.update(HudMsg::FontChange, 2, now());
    assert_eq!(hud.font_index, 0);
}

#[test]
fn hud_screen_cycle_moves_to_next_output() {
    let mut hud = boot();
    let outs = vec!["DP-1".to_string(), "HDMI-A-1".to_string()];
    let e = hud.update(HudMsg::ScreenCycle(outs.clone()), 2, now());
    assert_eq!(hud.target_output.as_deref(), Some("DP-1"));
    assert!(matches!(e[..], [Effect::Remove(1), Effect::Open { id: 2, kind: SurfaceKind::Overlay, .. }]));
    hud.update(HudMsg::ScreenCycle(outs.clone()), 3, now());
    assert_eq!(hud.target_output.as_deref(), Some("HDMI-A-1"));
    hud.update(HudMsg::ScreenCycle(outs), 4, now());
    assert_eq!(hud.target_output.as_deref(), Some("DP-1"));
    assert!(hud.update(HudMsg::ScreenCycle(Vec::new()), 5, now()).is_empty());
    assert_eq!(hud.surface_id, Some(4));
}

#[test]
fn hud_theme_modes() {
    let mut hud = boot();
    let e = hud.update(HudMsg::ThemeSet(ThemeMode::Light), 2, now());
    assert!(e.is_empty());
    assert!(!hud.dark);
    let e = hud.update(HudMsg::ThemeSet(ThemeMode::Adaptive), 2, now());
    assert!(matches!(e[..], [Effect::ProbeSystemTheme]));
    assert!(hud.backdrop);
    hud.system_theme(true);
    assert!(hud.dark);
    let e = hud.update(HudMsg::ThemeRefresh, 2, now());
    assert!(matches!(e[..], [Effect::SampleBackground]));
    hud.update(HudMsg::ThemeToggle, 2, now());
    assert!(!hud.dark);
}

#[test]
fn hud_attention_and_copy() {
    let mut hud = boot();
    hud.update(start("s1"), 2, now());
    hud.update(HudMsg::SetAttention("s1".into(), true), 2, now());
    assert!(hud.claude.as_ref().unwrap().sessions[0].needs_attention);
    let e = hud.update(HudMsg::CopySessionId("s1".into()), 2, now());
    assert!(matches!(&e[..], [Effect::Copy(s)] if s == "s1"));
}

#[test]
fn hud_same_session_started_twice_is_one_session() {
    let mut hud = boot();
    hud.update(start("s1"), 2, now());
    hud.update(start("s1"), 2, now());
    hud.update(start("s2"), 2, now());
    let w = hud.claude.as_ref().unwrap();
    assert_eq!(w.sessions.len(), 2);
    assert_eq!(w.activity_logs.len(), 2);
}

#[test]
fn hud_archive_modal_needs_archived_session() {
    let mut hud = boot();
    hud.update(HudMsg::ToggleFocus, 2, now());
    hud.update(start("s1"), 2, now());
    assert!(hud.update(HudMsg::OpenArchiveModal, 3, now()).is_empty());
    hud.claude.as_mut().unwrap().sessions[0].archived = true;
    let e = hud.update(HudMsg::OpenArchiveModal, 4, now());
    assert!(matches!(e[..], [Effect::Open { id: 4, kind: SurfaceKind::Modal, .. }]));
    hud.update(HudMsg::SelectArchivedSession(0), 5, now());
    assert_eq!(hud.archive_modal.as_ref().unwrap().selected_session, Some(0));
    let e = hud.update(HudMsg::OpenSessionModal(0), 6, now());
    assert!(hud.archive_modal.is_none());
    assert!(matches!(e[..], [Effect::Remove(4), Effect::Open { id: 6, kind: SurfaceKind::Modal, .. }]));
}

#[test]
fn hud_loader_ticks_and_cycles() {
    let mut hud = boot();
    hud.update(HudMsg::DemoLoaderToggle, 2, now());
    for _ in 0..12 {
        hud.update(HudMsg::Tick, 2, now());
    }
    let l = hud.demo_loader.as_ref().unwrap();
    assert_eq!(l.frame, 2);
    hud.update(HudMsg::DemoLoaderChange, 2, now());
    assert_eq!(hud.demo_loader.as_ref().unwrap().frame, 0);
}

#[test]
fn hud_pointer_messages_stay_local() {
    let mut hud = boot();
    hud.update(start("s1"), 2, now());
    hud.update(HudMsg::ToggleFocus, 3, now());
    hud.update(HudMsg::OpenSessionModal(0), 4, now());
    for msg in [
        HudMsg::HoverSession(0),
        HudMsg::HoverEntry(1),
        HudMsg::SelectActivity(1),
        HudMsg::UnhoverEntry(1),
        HudMsg::UnhoverSession(0),
        HudMsg::HoverArchive,
        HudMsg::UnhoverArchive,
        HudMsg::SelectArchivedSession(0),
        HudMsg::HoverArchivedEntry(0),
    ] {
        assert!(hud.update(msg, 9, now()).is_empty());
        assert_eq!(hud.mode, HudMode::Focused);
        assert_eq!(hud.surface_id, Some(3));
        assert_eq!(hud.modal.as_ref().unwrap().surface_id, 4);
        assert_eq!(hud.modal.as_ref().unwrap().session_index, 0);
        assert!(hud.archive_modal.is_none());
    }
    assert_eq!(hud.modal.as_ref().unwrap().selected_entry, Some(1));
}
