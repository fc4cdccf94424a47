//! Choosing between the dark and the light theme.
//!
//! Asking the desktop which theme it prefers takes several outside queries (a file of
//! the COSMIC desktop, the XDG desktop portal, `gsettings`, the `GTK_THEME` variable),
//! tried in that order until one answers. The functions here read each reply; running
//! the queries is the caller's part.
use vstd::prelude::*;
use crate::text::{chars_of, contains, contains_lit, lowercase_of, str_is, to_lowercase, trim, trim_string};

verus! {

/// How the theme is selected.
#[derive(Debug, Clone, Copy, PartialEq, Eq, Structural)]
pub enum ThemeMode {
    Dark,
    Light,
    /// Follow the desktop environment / system theme (updates dynamically).
    Auto,
    /// Sample the screen under the HUD to pick theme automatically.
    Adaptive,
}

/// The darkness a mode fixes by itself: `None` for the modes that ask the system.
pub open spec fn fixed_dark_of(mode: ThemeMode) -> Option<bool> {
    match mode {
        ThemeMode::Dark => Some(true),
        ThemeMode::Light => Some(false),
        ThemeMode::Auto | ThemeMode::Adaptive => None,
    }
}

/// Whether `mode` is dark by itself, or `None` when it follows the system.
pub fn fixed_dark(mode: ThemeMode) -> (r: Option<bool>)
    ensures
        r == fixed_dark_of(mode),
{
    match mode {
        ThemeMode::Dark => Some(true),
        ThemeMode::Light => Some(false),
        ThemeMode::Auto | ThemeMode::Adaptive => None,
    }
}

/// The answer of the COSMIC desktop's `is_dark` file: its trimmed contents `true` or
/// `false`, or no answer.
pub open spec fn cosmic_answer(contents: Seq<char>) -> Option<bool> {
    if trim(contents) == "true"@ {
        Some(true)
    } else if trim(contents) == "false"@ {
        Some(false)
    } else {
        None
    }
}

/// Reads the COSMIC desktop's `is_dark` file.
pub fn cosmic_choice(contents: &str) -> (r: Option<bool>)
    ensures
        r == cosmic_answer(contents@),
{
    let t = trim_string(contents);
    if str_is(t.as_str(), "true") {
        Some(true)
    } else if str_is(t.as_str(), "false") {
        Some(false)
    } else {
        None
    }
}

/// The answer of the desktop portal's `color-scheme` setting (`1` dark, `2` light), given
/// whether the query succeeded and what it printed.
pub open spec fn portal_answer(success: bool, stdout: Seq<char>) -> Option<bool> {
    if !success {
        None
    } else if contains(stdout, "uint32 1"@) {
        Some(true)
    } else if contains(stdout, "uint32 2"@) {
        Some(false)
    } else {
        None
    }
}

/// Reads the reply of the desktop portal.
pub fn portal_choice(success: bool, stdout: &str) -> (r: Option<bool>)
    ensures
        r == portal_answer(success, stdout@),
{
    if !success {
        return None;
    }
    let v = chars_of(stdout);
    if contains_lit(&v, "uint32 1") {
        Some(true)
    } else if contains_lit(&v, "uint32 2") {
        Some(false)
    } else {
        None
    }
}

/// The answer of `gsettings get org.gnome.desktop.interface color-scheme`.
pub open spec fn color_scheme_answer(stdout: Seq<char>) -> Option<bool> {
    if contains(stdout, "prefer-dark"@) {
        Some(true)
    } else if contains(stdout, "prefer-light"@) || contains(stdout, "default"@) {
        Some(false)
    } else {
        None
    }
}

/// Reads what `gsettings` printed for the color scheme.
pub fn color_scheme_choice(stdout: &str) -> (r: Option<bool>)
    ensures
        r == color_scheme_answer(stdout@),
{
    let v = chars_of(stdout);
    if contains_lit(&v, "prefer-dark") {
        Some(true)
    } else if contains_lit(&v, "prefer-light") || contains_lit(&v, "default") {
        Some(false)
    } else {
        None
    }
}

/// The answer of `gsettings get org.gnome.desktop.interface gtk-theme`, given whether the
/// query succeeded and the lowercase of what it printed: a theme named dark is dark, any
/// other named theme light.
pub open spec fn gtk_theme_answer(success: bool, lower: Seq<char>) -> Option<bool> {
    if contains(lower, "dark"@) {
        Some(true)
    } else if success && trim(lower).len() > 0 {
        Some(false)
    } else {
        None
    }
}

/// Reads what `gsettings` printed for the GTK theme.
pub fn gtk_theme_choice(success: bool, stdout: &str) -> (r: Option<bool>)
    ensures
        r == gtk_theme_answer(success, lowercase_of(stdout@)),
{
    let lower = to_lowercase(stdout);
    let v = chars_of(lower.as_str());
    if contains_lit(&v, "dark") {
        Some(true)
    } else {
        let t = trim_string(lower.as_str());
        let tv = chars_of(t.as_str());
        if success && tv.len() > 0 {
            Some(false)
        } else {
            None
        }
    }
}

/// Reads the `GTK_THEME` variable (such as `Adwaita:dark`).
pub fn gtk_env_choice(value: &str) -> (r: bool)
    ensures
        r == contains(lowercase_of(value@), "dark"@),
{
    let lower = to_lowercase(value);
    let v = chars_of(lower.as_str());
    contains_lit(&v, "dark")
}


/// The verdict of the desktop's answers, asked in order: the first one that answers
/// decides; dark when none does.
pub open spec fn first_answer_of(answers: Seq<Option<bool>>) -> bool
    decreases answers.len(),
{
    if answers.len() == 0 {
        true
    } else {
        match answers[0] {
            Some(dark) => dark,
            None => first_answer_of(answers.drop_first()),
        }
    }
}

/// Whether the desktop prefers a dark theme, given the answers of its queries in the
/// order they are asked (see `first_answer_of`).
pub fn system_dark_verdict(answers: &[Option<bool>]) -> (r: bool)
    ensures
        r == first_answer_of(answers@),
{
    let mut i: usize = 0;
    assert(answers@.skip(0) =~= answers@);
    while i < answers.len()
        invariant
            0 <= i <= answers@.len(),
            first_answer_of(answers@.skip(i as int)) == first_answer_of(answers@),
        decreases answers.len() - i,
    {
        assert(answers@.skip(i as int).drop_first() =~= answers@.skip(i + 1));
        assert(answers@.skip(i as int)[0] == answers@[i as int]);
        if let Some(dark) = answers[i] {
            return dark;
        }
        i += 1;
    }
    assert(answers@.skip(i as int) =~= Seq::<Option<bool>>::empty());
    true
}
} // verus!
