use dev_hud::theme::{
    color_scheme_choice, cosmic_choice, fixed_dark, gtk_env_choice, gtk_theme_choice,
    portal_choice, system_dark_verdict, ThemeMode,
};

#[test]
fn theme_fixed_modes() {
    assert_eq!(fixed_dark(ThemeMode::Dark), Some(true));
    assert_eq!(fixed_dark(ThemeMode::Light), Some(false));
    assert_eq!(fixed_dark(ThemeMode::Auto), None);
    assert_eq!(fixed_dark(ThemeMode::Adaptive), None);
}

#[test]
fn theme_cosmic_file() {
    assert_eq!(cosmic_choice(" true\n"), Some(true));
    assert_eq!(cosmic_choice("false"), Some(false));
    assert_eq!(cosmic_choice("maybe"), None);
}

#[test]
fn theme_portal_reply() {
    assert_eq!(portal_choice(true, "   variant       uint32 1\n"), Some(true));
    assert_eq!(portal_choice(true, "uint32 2"), Some(false));
    assert_eq!(portal_choice(true, "uint32 0"), None);
    assert_eq!(portal_choice(false, "uint32 1"), None);
}

#[test]
fn theme_gsettings_replies() {
    assert_eq!(color_scheme_choice("'prefer-dark'\n"), Some(true));
    assert_eq!(color_scheme_choice("'prefer-light'"), Some(false));
    assert_eq!(color_scheme_choice("'default'"), Some(false));
    assert_eq!(color_scheme_choice(""), None);
    assert_eq!(gtk_theme_choice(true, "'Adwaita-DARK'\n"), Some(true));
    assert_eq!(gtk_theme_choice(true, "'Adwaita'\n"), Some(false));
    assert_eq!(gtk_theme_choice(false, "'Adwaita'\n"), None);
    assert_eq!(gtk_theme_choice(true, "  \n"), None);
}

#[test]
fn theme_gtk_env() {
    assert!(gtk_env_choice("Adwaita:DARK"));
    assert!(!gtk_env_choice("Adwaita"));
}

#[test]
fn system_dark_verdict_takes_the_first_answer() {
    assert!(system_dark_verdict(&[]));
    assert!(system_dark_verdict(&[None, None]));
    assert!(!system_dark_verdict(&[None, Some(false), Some(true)]));
    assert!(system_dark_verdict(&[Some(true), Some(false)]));
}
