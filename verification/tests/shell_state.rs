use dev_hud::session::Clock;
use dev_hud::shell::config::{
    config_path_for, parse_config, reconcile, ShellConfig, ShellMode, Visibility,
};
use dev_hud::shell::{ShellEvent, ShellState, MAX_BUFFER_LINES};

fn at(secs: u64) -> Clock {
    Clock { mono_ns: secs * 1_000_000_000, wall_ns: 1_700_000_000_000_000_000 + secs as i128 }
}

fn cfg(label: &str, command: &str, mode: Option<ShellMode>) -> ShellConfig {
    ShellConfig {
        label: label.to_string(),
        command: command.to_string(),
        mode,
        lines: 16,
        visible: Visibility::Focus,
        cols: 120,
        rows: 24,
        font_size: None,
        font_size_texts: Vec::new(),
    }
}

fn loaded(configs: Vec<ShellConfig>, now: Clock) -> ShellState {
    let mut st = ShellState::default();
    st.apply_event(&ShellEvent::ConfigLoaded(configs), now);
    st
}

#[test]
fn shell_buffer_keeps_last_lines() {
    let mut st = loaded(vec![cfg("log", "tail -f x", None)], at(0));
    let lines: Vec<String> = (0..300).map(|i| format!("line {i}")).collect();
    st.apply_event(&ShellEvent::Output { label: "log".into(), lines }, at(1));
    let buf = &st.instances[0].buffer;
    assert_eq!(buf.len(), MAX_BUFFER_LINES);
    assert_eq!(buf.front().unwrap(), "line 44");
    assert_eq!(buf.back().unwrap(), "line 299");
    assert_eq!(st.most_recent, Some(0));
    assert_eq!(st.instances[0].last_update, at(1).wall_ns);
}

#[test]
fn shell_output_for_unknown_label_is_ignored() {
    let mut st = loaded(vec![cfg("a", "echo a", None)], at(0));
    st.apply_event(&ShellEvent::Output { label: "b".into(), lines: vec!["x".into()] }, at(1));
    assert!(st.instances[0].buffer.is_empty());
    assert_eq!(st.most_recent, None);
}

#[test]
fn shell_quick_exit_becomes_oneshot() {
    let mut st = loaded(vec![cfg("d", "date", None), cfg("s", "tail -f y", Some(ShellMode::Stream))], at(10));
    assert_eq!(st.instances[0].resolved_mode, ShellMode::Stream);
    st.apply_event(&ShellEvent::Exited { label: "d".into(), exit_code: Some(0) }, at(12));
    st.apply_event(&ShellEvent::Exited { label: "s".into(), exit_code: Some(1) }, at(12));
    assert_eq!(st.instances[0].resolved_mode, ShellMode::Oneshot);
    assert_eq!(st.instances[0].exit_code, Some(0));
    assert_eq!(st.instances[1].resolved_mode, ShellMode::Stream);
    assert_eq!(st.instances[1].exit_code, Some(1));
}

#[test]
fn shell_slow_exit_keeps_stream() {
    let mut st = loaded(vec![cfg("d", "sleep 5", None)], at(10));
    st.apply_event(&ShellEvent::Exited { label: "d".into(), exit_code: None }, at(13));
    assert_eq!(st.instances[0].resolved_mode, ShellMode::Stream);
}

#[test]
fn shell_error_without_instance_adds_placeholder() {
    let mut st = ShellState::default();
    st.apply_event(&ShellEvent::Error { label: "x".into(), error: "boom".into() }, at(0));
    assert_eq!(st.instances.len(), 1);
    assert_eq!(st.instances[0].config.label, "x");
    assert_eq!(st.instances[0].config.command, "");
    assert_eq!(st.instances[0].error.as_deref(), Some("boom"));
    st.apply_event(&ShellEvent::Error { label: "x".into(), error: "again".into() }, at(1));
    assert_eq!(st.instances.len(), 1);
    assert_eq!(st.instances[0].error.as_deref(), Some("again"));
}

#[test]
fn shell_reload_keeps_running_output() {
    let mut st = loaded(vec![cfg("a", "echo a", None), cfg("b", "echo b", None)], at(0));
    st.apply_event(&ShellEvent::Output { label: "a".into(), lines: vec!["kept".into()] }, at(1));
    st.apply_event(&ShellEvent::Output { label: "b".into(), lines: vec!["gone".into()] }, at(2));
    assert_eq!(st.most_recent, Some(1));
    st.apply_event(&ShellEvent::ConfigReloaded(vec![cfg("a", "echo a", Some(ShellMode::Tui))]), at(3));
    assert_eq!(st.instances.len(), 1);
    assert_eq!(st.instances[0].buffer.len(), 1);
    assert_eq!(st.instances[0].buffer[0], "kept");
    assert_eq!(st.instances[0].config.mode, Some(ShellMode::Tui));
    assert_eq!(st.most_recent, None);
}

#[test]
fn shell_reload_restarts_changed_command() {
    let mut st = loaded(vec![cfg("a", "echo a", None)], at(0));
    st.apply_event(&ShellEvent::Output { label: "a".into(), lines: vec!["old".into()] }, at(1));
    st.apply_event(&ShellEvent::ConfigReloaded(vec![cfg("a", "echo b", None)]), at(5));
    assert!(st.instances[0].buffer.is_empty());
    assert_eq!(st.instances[0].spawned_at, at(5).mono_ns);
}

#[test]
fn config_path_under_home() {
    assert_eq!(config_path_for(Some(b"/home/u".to_vec())), b"/home/u/.config/viz/shells.md".to_vec());
    assert_eq!(config_path_for(Some(b"/home/u/".to_vec())), b"/home/u/.config/viz/shells.md".to_vec());
    assert_eq!(config_path_for(None), b"/tmp/.config/viz/shells.md".to_vec());
}

#[test]
fn config_path_keeps_a_home_that_is_not_utf8() {
    assert_eq!(
        config_path_for(Some(vec![b'/', b'h', 0xff, b'x'])),
        vec![b'/', b'h', 0xff, b'x', b'/', b'.', b'c', b'o', b'n', b'f', b'i', b'g', b'/', b'v', b'i', b'z', b'/', b's', b'h', b'e', b'l', b'l', b's', b'.', b'm', b'd']
    );
}

#[test]
fn config_words_are_case_insensitive() {
    let configs = parse_config("# a\n- command: x\n- mode: STREAM\n- visible: Always\n");
    assert_eq!(configs[0].mode, Some(ShellMode::Stream));
    assert_eq!(configs[0].visible, Visibility::Always);
    let configs = parse_config("# a\n- command: x\n- mode: bogus\n");
    assert_eq!(configs[0].mode, None);
}

#[test]
fn config_numbers_follow_usize_parsing() {
    let configs = parse_config("# a\n- command: x\n- lines: +20\n- cols: -5\n- rows: 99999999999999999999999\n");
    assert_eq!(configs[0].lines, 20);
    assert_eq!(configs[0].cols, 120);
    assert_eq!(configs[0].rows, 24);
    let configs = parse_config("# a\n- command: x\n- lines: 0\n");
    assert_eq!(configs[0].lines, 1);
}

#[test]
fn config_empty_command_and_settings_before_heading() {
    let configs = parse_config("- command: early\n# a\n- command:   \n# b\r\n- command: ok\r\n");
    assert_eq!(configs.len(), 1);
    assert_eq!(configs[0].label, "b");
    assert_eq!(configs[0].command, "ok");
    assert_eq!(configs[0].font_size, None);
}

#[test]
fn config_font_size_values_kept_in_order() {
    let configs = parse_config("# a\n- command: x\n- font_size: 6.0\n- font_size: big\n");
    assert_eq!(configs[0].font_size_texts, vec!["6.0".to_string(), "big".to_string()]);
    assert_eq!(configs[0].font_size, None);
}

#[test]
fn reconcile_with_itself_is_empty() {
    let configs = parse_config("# a\n- command: x\n# b\n- command: y\n");
    let diff = reconcile(&configs, &configs);
    assert!(diff.added.is_empty());
    assert!(diff.removed.is_empty());
    assert!(diff.changed.is_empty());
}

#[test]
fn reconcile_nan_font_size_counts_as_changed() {
    let mut a = cfg("a", "x", None);
    a.font_size = Some(f32::NAN.to_bits());
    let old = vec![a];
    let diff = reconcile(&old, &old);
    assert_eq!(diff.changed.len(), 1);
    let mut b = cfg("b", "x", None);
    b.font_size = Some(0.0f32.to_bits());
    let mut c = cfg("b", "x", None);
    c.font_size = Some((-0.0f32).to_bits());
    assert!(reconcile(&[b], &[c]).changed.is_empty());
}

#[test]
fn reconcile_uses_last_old_config_of_a_label() {
    let old = vec![cfg("a", "first", None), cfg("a", "second", None)];
    let new = vec![cfg("a", "second", None)];
    let diff = reconcile(&old, &new);
    assert!(diff.changed.is_empty());
    assert!(diff.added.is_empty());
    let new2 = vec![cfg("z", "q", None)];
    let diff2 = reconcile(&old, &new2);
    assert_eq!(diff2.removed, vec!["a".to_string(), "a".to_string()]);
}
