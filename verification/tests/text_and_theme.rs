use doxle::text::{contains, decimal_string, ends_with, parse_usize, str_eq, trim};
use doxle::theme::{
    load_theme_preference, more_menu_toggle_theme, save_theme_preference,
    setup_global_keyboard_shortcuts, status_bar_style, theme_color_meta, Theme,
};

#[test]
fn trim_removes_unicode_white_space() {
    assert_eq!(trim("  hello world \t\n"), "hello world");
    assert_eq!(trim("\u{3000}x\u{a0}"), "x");
    assert_eq!(trim("   "), "");
    assert_eq!(trim(""), "");
    assert_eq!(trim("a  b"), "a  b");
}

#[test]
fn trim_is_idempotent_on_examples() {
    for s in ["  a ", "b", " \u{2003} c d \u{2029}"] {
        let once = trim(s);
        assert_eq!(trim(&once), once);
    }
}

#[test]
fn contains_and_ends_with_match_std() {
    for (hay, needle) in [("Roof Plan", "Plan"), ("abc", ""), ("abc", "abcd"), ("aaab", "aab"), ("", "")] {
        assert_eq!(contains(hay, needle), hay.contains(needle));
    }
    assert!(ends_with("app.doxle.ai", ".doxle.ai"));
    assert!(!ends_with("doxle.ai", ".doxle.ai"));
    assert!(str_eq("dark", "dark"));
    assert!(!str_eq("dark", "Dark"));
}

#[test]
fn decimal_and_parse_round_trip() {
    for n in [0u64, 7, 10, 99, 150, 4294967295, u64::MAX] {
        assert_eq!(decimal_string(n), n.to_string());
    }
    assert_eq!(parse_usize("42"), Some(42));
    assert_eq!(parse_usize("+7"), Some(7));
    assert_eq!(parse_usize(""), None);
    assert_eq!(parse_usize("+"), None);
    assert_eq!(parse_usize("-1"), None);
    assert_eq!(parse_usize("1a"), None);
    assert_eq!(parse_usize("99999999999999999999999"), None);
    assert_eq!(parse_usize(&usize::MAX.to_string()), Some(usize::MAX));
}

#[test]
fn theme_cycle_has_period_three() {
    for t in [Theme::Light, Theme::Dark, Theme::System] {
        assert_eq!(t.cycle().cycle().cycle(), t);
        assert_ne!(t.cycle(), t);
    }
    assert_eq!(Theme::Light.cycle(), Theme::Dark);
    assert_eq!(Theme::Dark.cycle(), Theme::System);
    assert_eq!(Theme::System.cycle(), Theme::Light);
}

#[test]
fn theme_names_and_classes() {
    assert_eq!(Theme::Light.display_name(), "Light");
    assert_eq!(Theme::Dark.display_name(), "Dark");
    assert_eq!(Theme::System.display_name(), "System");
    assert_eq!(Theme::Light.to_class(true), "light");
    assert_eq!(Theme::Dark.to_class(false), "dark");
    assert_eq!(Theme::System.to_class(true), "dark");
    assert_eq!(Theme::System.to_class(false), "light");
}

#[test]
fn theme_preference_round_trip() {
    for t in [Theme::Light, Theme::Dark, Theme::System] {
        assert_eq!(load_theme_preference(save_theme_preference(t)), Some(t));
    }
    assert_eq!(save_theme_preference(Theme::System), "system");
    assert_eq!(load_theme_preference("Dark"), None);
    assert_eq!(load_theme_preference(""), None);
}

#[test]
fn theme_meta_values() {
    assert_eq!(theme_color_meta(Theme::Dark), "#060606");
    assert_eq!(theme_color_meta(Theme::System), "#ffffff");
    assert_eq!(status_bar_style(Theme::Dark), "black-translucent");
    assert_eq!(status_bar_style(Theme::Light), "default");
}

#[test]
fn keyboard_shortcut_toggles_theme_class() {
    assert_eq!(setup_global_keyboard_shortcuts(None, "t", "dark"), Some("light"));
    assert_eq!(setup_global_keyboard_shortcuts(Some("DIV"), "t", "light"), Some("dark"));
    assert_eq!(setup_global_keyboard_shortcuts(None, "t", ""), Some("dark"));
    assert_eq!(setup_global_keyboard_shortcuts(Some("INPUT"), "t", "dark"), None);
    assert_eq!(setup_global_keyboard_shortcuts(Some("TextArea"), "t", "dark"), None);
    assert_eq!(setup_global_keyboard_shortcuts(None, "x", "dark"), None);
    assert_eq!(more_menu_toggle_theme("page dark"), "light");
    assert_eq!(more_menu_toggle_theme("light"), "dark");
}
