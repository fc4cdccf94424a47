use dev_hud::loader::{tool_state_frames, DemoLoader, LoaderStyle};
use dev_hud::events::ToolCategory;
use dev_hud::util::strip_ansi;

#[test]
fn strip_ansi_removes_escapes() {
    assert_eq!(strip_ansi("\x1b[31mred\x1b[0m plain"), "red plain");
    assert_eq!(strip_ansi("no escapes"), "no escapes");
    assert!(!strip_ansi("a\x1b[1;2Hb\x1b").contains('\x1b'));
}

#[test]
fn loader_styles_cycle_back() {
    let mut s = LoaderStyle::Braille;
    let mut labels = Vec::new();
    for _ in 0..5 {
        labels.push(s.label());
        s = s.next();
    }
    assert_eq!(s, LoaderStyle::Braille);
    labels.sort();
    labels.dedup();
    assert_eq!(labels.len(), 5);
}

#[test]
fn loader_image_styles_wrap_on_their_frames() {
    let mut l = DemoLoader::new(0, 3);
    while l.style != LoaderStyle::Svg {
        l.cycle_style();
    }
    assert_eq!(l.frame_count(), 3);
    for _ in 0..4 {
        l.tick();
    }
    assert_eq!(l.frame, 1);
    l.cycle_style();
    assert_eq!(l.style, LoaderStyle::Braille);
    assert_eq!(l.frame, 0);
}

#[test]
fn tool_frames_per_category() {
    assert_eq!(tool_state_frames(ToolCategory::Reading), &["◉", "◎", "○", "◎"][..]);
    assert_eq!(tool_state_frames(ToolCategory::Unknown).len(), 10);
}
