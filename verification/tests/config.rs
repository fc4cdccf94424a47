use dev_hud::shell::config::{parse_config, reconcile, ShellConfig, ShellMode, Visibility};

fn default_config(label: &str, command: &str) -> ShellConfig {
    ShellConfig {
        label: label.into(),
        command: command.into(),
        mode: None,
        lines: 16,
        visible: Visibility::Focus,
        cols: 120,
        rows: 24,
        font_size: None,
        font_size_texts: Vec::new(),
    }
}

/// The font size a configuration's `- font_size:` lines set: the last value that reads
/// as a float, clamped to `2.0..=32.0`.
fn font_size(c: &ShellConfig) -> Option<f32> {
    c.font_size_texts
        .iter()
        .rev()
        .find_map(|t| t.parse::<f32>().ok())
        .map(|f| f.clamp(2.0, 32.0))
}

#[test]
fn parse_basic_config() {
    let input = r#"
# syslog
- command: tail -f /var/log/syslog
- mode: stream
- lines: 20

# uptime
- command: uptime
- mode: oneshot
"#;
    let configs = parse_config(input);
    assert_eq!(configs.len(), 2);

    assert_eq!(configs[0].label, "syslog");
    assert_eq!(configs[0].command, "tail -f /var/log/syslog");
    assert_eq!(configs[0].mode, Some(ShellMode::Stream));
    assert_eq!(configs[0].lines, 20);
    assert_eq!(configs[0].visible, Visibility::Focus);
    assert_eq!(configs[0].cols, 120);

    assert_eq!(configs[1].label, "uptime");
    assert_eq!(configs[1].command, "uptime");
    assert_eq!(configs[1].mode, Some(ShellMode::Oneshot));
    assert_eq!(configs[1].lines, 16); // default
}

#[test]
fn parse_new_fields() {
    let input = r#"
# dev-hud-logs
- command: journalctl --user -u dev-hud -f --no-pager
- mode: stream
- lines: 8
- visible: always
- cols: 160
- font_size: 6.0
"#;
    let configs = parse_config(input);
    assert_eq!(configs.len(), 1);
    assert_eq!(configs[0].visible, Visibility::Always);
    assert_eq!(configs[0].cols, 160);
    assert_eq!(font_size(&configs[0]), Some(6.0));
}

#[test]
fn parse_tui_mode() {
    let input = r#"
# system-monitor
- command: top -b -d 2
- mode: tui
- rows: 40
- cols: 120
- font_size: 5.0
"#;
    let configs = parse_config(input);
    assert_eq!(configs.len(), 1);
    assert_eq!(configs[0].mode, Some(ShellMode::Tui));
    assert_eq!(configs[0].rows, 40);
    assert_eq!(configs[0].cols, 120);
    assert_eq!(font_size(&configs[0]), Some(5.0));
}

#[test]
fn parse_missing_command_skips() {
    let input = r#"
# no-command
- mode: stream

# has-command
- command: echo hello
"#;
    let configs = parse_config(input);
    assert_eq!(configs.len(), 1);
    assert_eq!(configs[0].label, "has-command");
}

#[test]
fn parse_auto_detect_mode() {
    let input = r#"
# auto
- command: date
"#;
    let configs = parse_config(input);
    assert_eq!(configs.len(), 1);
    assert_eq!(configs[0].mode, None);
}

#[test]
fn parse_lines_clamped() {
    let input = r#"
# big
- command: echo hi
- lines: 999
"#;
    let configs = parse_config(input);
    assert_eq!(configs[0].lines, 64);
}

#[test]
fn parse_cols_clamped() {
    let input = r#"
# wide
- command: echo hi
- cols: 9999
"#;
    let configs = parse_config(input);
    assert_eq!(configs[0].cols, 512);

    let input2 = r#"
# narrow
- command: echo hi
- cols: 5
"#;
    let configs2 = parse_config(input2);
    assert_eq!(configs2[0].cols, 40);
}

#[test]
fn parse_rows_clamped() {
    let input = r#"
# huge
- command: top
- rows: 999
"#;
    let configs = parse_config(input);
    assert_eq!(configs[0].rows, 200);
}

#[test]
fn parse_font_size_clamped() {
    let input = r#"
# tiny
- command: echo hi
- font_size: 0.5
"#;
    let configs = parse_config(input);
    assert_eq!(font_size(&configs[0]), Some(2.0));
}

#[test]
fn parse_html_comments_skipped() {
    let input = r#"
# active
- command: echo hello

<!-- # commented-out
- command: echo secret
- mode: stream -->

# also-active
- command: echo world
"#;
    let configs = parse_config(input);
    assert_eq!(configs.len(), 2);
    assert_eq!(configs[0].label, "active");
    assert_eq!(configs[1].label, "also-active");
}

#[test]
fn parse_html_comment_does_not_pollute_previous() {
    let input = r#"
# real
- command: ctop

<!-- # fake
- command: cmatrix
- mode: tui -->
"#;
    let configs = parse_config(input);
    assert_eq!(configs.len(), 1);
    assert_eq!(configs[0].label, "real");
    assert_eq!(configs[0].command, "ctop");
}

#[test]
fn reconcile_detects_changes() {
    let old = vec![
        default_config("a", "echo a"),
        default_config("b", "echo b"),
    ];
    let new = vec![
        ShellConfig {
            command: "echo a-v2".into(),
            ..default_config("a", "echo a-v2")
        },
        default_config("c", "echo c"),
    ];
    let diff = reconcile(&old, &new);
    assert_eq!(diff.added.len(), 1);
    assert_eq!(diff.added[0].label, "c");
    assert_eq!(diff.removed.len(), 1);
    assert_eq!(diff.removed[0], "b");
    assert_eq!(diff.changed.len(), 1);
    assert_eq!(diff.changed[0].label, "a");
}

#[test]
fn reconcile_detects_visibility_change() {
    let old = vec![default_config("a", "echo a")];
    let new = vec![ShellConfig {
        visible: Visibility::Always,
        ..default_config("a", "echo a")
    }];
    let diff = reconcile(&old, &new);
    assert_eq!(diff.changed.len(), 1);
    assert_eq!(diff.changed[0].visible, Visibility::Always);
}

#[test]
fn reconcile_detects_cols_change() {
    let old = vec![default_config("a", "echo a")];
    let new = vec![ShellConfig {
        cols: 200,
        ..default_config("a", "echo a")
    }];
    let diff = reconcile(&old, &new);
    assert_eq!(diff.changed.len(), 1);
}

#[test]
fn reload_plan_stops_removed_and_changed_and_starts_added_and_changed() {
    let old = vec![
        default_config("a", "echo a"),
        default_config("b", "echo b"),
    ];
    let new = vec![
        default_config("a", "echo a-v2"),
        default_config("c", "echo c"),
    ];
    let diff = reconcile(&old, &new);
    assert!(!diff.is_empty());
    assert_eq!(diff.stopped_labels(), vec!["b".to_string(), "a".to_string()]);
    let started: Vec<String> = diff.started_configs().iter().map(|c| c.label.clone()).collect();
    assert_eq!(started, vec!["c".to_string(), "a".to_string()]);
    assert_eq!(diff.started_configs()[1].command, "echo a-v2");
}

#[test]
fn reload_plan_of_unchanged_config_is_empty() {
    let cfgs = vec![default_config("a", "echo a"), default_config("b", "echo b")];
    let diff = reconcile(&cfgs, &cfgs);
    assert!(diff.is_empty());
    assert!(diff.stopped_labels().is_empty());
    assert!(diff.started_configs().is_empty());
}

#[test]
fn parsed_labels_are_trimmed_and_not_empty() {
    let cfgs = parse_config("#   \n# \n#  spaced label  \n- command: echo x\n");
    assert_eq!(cfgs.len(), 1);
    assert_eq!(cfgs[0].label, "spaced label");
}
