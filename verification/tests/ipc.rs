use dev_hud::ipc::{is_known_command, join_words, parse_command, socket_path_for, Command};
use dev_hud::surface::output_names;
use dev_hud::theme::ThemeMode;

#[test]
fn ipc_fixed_commands() {
    assert!(matches!(parse_command("toggle"), Some(Command::Toggle)));
    assert!(matches!(parse_command("focus\n"), Some(Command::Focus)));
    assert!(matches!(parse_command("demo loader-toggle"), Some(Command::DemoLoaderToggle)));
    assert!(matches!(parse_command("demo loader-change"), Some(Command::DemoLoaderChange)));
    assert!(matches!(parse_command("demo font-change"), Some(Command::FontChange)));
    assert!(matches!(parse_command("theme dark"), Some(Command::Theme(ThemeMode::Dark))));
    assert!(matches!(parse_command("theme light"), Some(Command::Theme(ThemeMode::Light))));
    assert!(matches!(parse_command("theme auto"), Some(Command::Theme(ThemeMode::Auto))));
    assert!(matches!(parse_command(" theme adaptive "), Some(Command::Theme(ThemeMode::Adaptive))));
    assert!(matches!(parse_command("theme-toggle"), Some(Command::ThemeToggle)));
    assert!(matches!(parse_command("bg-toggle"), Some(Command::BackdropToggle)));
    assert!(matches!(parse_command("shell-toggle"), Some(Command::ShellToggle)));
    assert!(matches!(parse_command("screen"), Some(Command::ScreenCycle)));
}

#[test]
fn ipc_screen_set_and_unknown() {
    match parse_command("  screen   DP-1 \n") {
        Some(Command::ScreenSet(name)) => assert_eq!(name, "DP-1"),
        other => panic!("expected ScreenSet, got {:?}", other),
    }
    assert!(matches!(parse_command("screen \n"), Some(Command::ScreenCycle)));
    assert!(parse_command("Toggle").is_none());
    assert!(parse_command("theme blue").is_none());
    assert!(parse_command("").is_none());
}

#[test]
fn ipc_ctl_accepts_what_the_hud_reads() {
    for cmd in [
        "toggle", "focus", "demo loader-toggle", "demo loader-change", "demo font-change",
        "theme dark", "theme light", "theme auto", "theme adaptive", "theme-toggle",
        "bg-toggle", "shell-toggle", "screen", "screen HDMI-A-1", "screen ",
    ] {
        assert!(is_known_command(cmd), "{cmd}");
        assert!(parse_command(cmd).is_some(), "{cmd}");
    }
    assert!(!is_known_command(" toggle"));
    assert!(!is_known_command("screens"));
}

#[test]
fn ipc_join_words() {
    let args = vec!["theme".to_string(), "dark".to_string()];
    assert_eq!(join_words(&args), "theme dark");
    assert_eq!(join_words(&Vec::new()), "");
    assert_eq!(join_words(&vec!["screen".to_string()]), "screen");
}

#[test]
fn ipc_socket_path() {
    assert_eq!(socket_path_for(Some("/run/user/1000".into())), "/run/user/1000/dev-hud.sock");
    assert_eq!(socket_path_for(None), "/tmp/dev-hud.sock");
    assert_eq!(socket_path_for(Some(String::new())), "dev-hud.sock");
}

#[test]
fn surface_output_names_from_listing() {
    let listing = "DP-1 \"Dell Inc. U2720Q\" (enabled)\n  Make: Dell\n\tModes:\nHDMI-A-1 \"LG\"\r\n\n";
    assert_eq!(output_names(listing), vec!["DP-1".to_string(), "HDMI-A-1".to_string()]);
}

#[test]
fn surface_output_names_strip_colors() {
    let listing = "\x1b[1meDP-1\x1b[0m (enabled)\n  \x1b[1mx\n";
    assert_eq!(output_names(listing), vec!["eDP-1".to_string()]);
    assert!(output_names("").is_empty());
}
