use vstd::prelude::*;
use crate::text::{contains, lowercase, str_eq, to_lowercase, contains_seq};

verus! {

/// Colour scheme the user has chosen for the interface.
#[derive(Clone, Copy, PartialEq, Eq, Debug, Structural)]
pub enum Theme {
    Light,
    Dark,
    System,
}

impl Theme {
    /// The next theme in the cycle `Light -> Dark -> System -> Light`.
    pub open spec fn spec_cycle(self) -> Theme {
        match self {
            Theme::Light => Theme::Dark,
            Theme::Dark => Theme::System,
            Theme::System => Theme::Light,
        }
    }

    /// The next theme in the cycle `Light -> Dark -> System -> Light`.
    pub fn cycle(&self) -> (next: Theme)
        ensures
            next == self.spec_cycle(),
    {
        match self {
            Theme::Light => Theme::Dark,
            Theme::Dark => Theme::System,
            Theme::System => Theme::Light,
        }
    }

    /// Name shown to the user for this theme.
    pub fn display_name(&self) -> (name: &'static str)
        ensures
            *self == Theme::Light ==> name@ == "Light"@,
            *self == Theme::Dark ==> name@ == "Dark"@,
            *self == Theme::System ==> name@ == "System"@,
    {
        match self {
            Theme::Light => "Light",
            Theme::Dark => "Dark",
            Theme::System => "System",
        }
    }

    /// CSS class put on the document root for this theme. `System` follows
    /// the browser colour-scheme preference, which the caller reads.
    pub fn to_class(&self, system_prefers_dark: bool) -> (class: &'static str)
        ensures
            class@ == spec_theme_class(*self, system_prefers_dark),
    {
        match self {
            Theme::Light => "light",
            Theme::Dark => "dark",
            Theme::System => {
                if system_prefers_dark {
                    "dark"
                } else {
                    "light"
                }
            },
        }
    }
}

/// CSS class for `theme`, given the browser colour-scheme preference.
pub open spec fn spec_theme_class(theme: Theme, system_prefers_dark: bool) -> Seq<char> {
    match theme {
        Theme::Light => "light"@,
        Theme::Dark => "dark"@,
        Theme::System => if system_prefers_dark {
            "dark"@
        } else {
            "light"@
        },
    }
}

/// Value under which a theme choice is kept in local storage.
pub open spec fn spec_preference_value(theme: Theme) -> Seq<char> {
    match theme {
        Theme::Light => "light"@,
        Theme::Dark => "dark"@,
        Theme::System => "system"@,
    }
}

/// Theme named by a stored value, if the value names one.
pub open spec fn spec_parse_preference(value: Seq<char>) -> Option<Theme> {
    if value == "light"@ {
        Some(Theme::Light)
    } else if value == "dark"@ {
        Some(Theme::Dark)
    } else if value == "system"@ {
        Some(Theme::System)
    } else {
        None
    }
}

/// Storage key of the theme choice.
pub const THEME_STORAGE_KEY: &'static str = "doxle_theme";

/// Value to store for a theme choice.
pub fn save_theme_preference(theme: Theme) -> (value: &'static str)
    ensures
        value@ == spec_preference_value(theme),
{
    match theme {
        Theme::Light => "light",
        Theme::Dark => "dark",
        Theme::System => "system",
    }
}

/// Theme choice read back from a stored value; `None` for anything else.
pub fn load_theme_preference(value: &str) -> (theme: Option<Theme>)
    ensures
        theme == spec_parse_preference(value@),
{
    if str_eq(value, "light") {
        Some(Theme::Light)
    } else if str_eq(value, "dark") {
        Some(Theme::Dark)
    } else if str_eq(value, "system") {
        Some(Theme::System)
    } else {
        None
    }
}

/// Cycling the theme three times comes back to where it started, and every
/// theme is reached on the way.
pub proof fn lemma_cycle_period(theme: Theme)
    ensures
        theme.spec_cycle().spec_cycle().spec_cycle() == theme,
        theme.spec_cycle() != theme,
        theme.spec_cycle().spec_cycle() != theme,
{
}

/// A stored theme choice is read back as the same theme.
pub proof fn lemma_preference_round_trip(theme: Theme)
    ensures
        spec_parse_preference(spec_preference_value(theme)) == Some(theme),
{
    reveal_strlit("light");
    reveal_strlit("dark");
    reveal_strlit("system");
    assert("light"@.len() == 5 && "dark"@.len() == 4 && "system"@.len() == 6);
}

/// The class put on the document is always `light` or `dark`.
pub proof fn lemma_class_is_light_or_dark(theme: Theme, system_prefers_dark: bool)
    ensures
        spec_theme_class(theme, system_prefers_dark) == "light"@ || spec_theme_class(
            theme,
            system_prefers_dark,
        ) == "dark"@,
{
}

/// Colour of the browser `theme-color` meta tag.
pub fn theme_color_meta(theme: Theme) -> (color: &'static str)
    ensures
        theme == Theme::Dark ==> color@ == "#060606"@,
        theme != Theme::Dark ==> color@ == "#ffffff"@,
{
    if theme == Theme::Dark {
        "#060606"
    } else {
        "#ffffff"
    }
}

/// Style of the iOS status bar for the theme.
pub fn status_bar_style(theme: Theme) -> (style: &'static str)
    ensures
        theme == Theme::Dark ==> style@ == "black-translucent"@,
        theme != Theme::Dark ==> style@ == "default"@,
{
    if theme == Theme::Dark {
        "black-translucent"
    } else {
        "default"
    }
}

/// Class that the `t` shortcut gives the document root, from its current
/// class: `dark` turns `light`, otherwise `light` turns `dark`, and with
/// neither the page becomes `dark`.
pub open spec fn spec_shortcut_toggle(current: Seq<char>) -> Seq<char> {
    if contains_seq(current, "dark"@) {
        "light"@
    } else {
        "dark"@
    }
}

/// Which tags swallow keyboard shortcuts (text entry).
pub open spec fn spec_is_text_entry_tag(tag: Seq<char>) -> bool {
    let t = lowercase(tag);
    t == "input"@ || t == "textarea"@ || t == "select"@
}

/// Decision of the global keyboard handler: `Some(class)` to set on the
/// document root, or `None` to leave the page alone. Only the `t` key acts,
/// and not while the focus is in a text field.
pub fn setup_global_keyboard_shortcuts(
    target_tag: Option<&str>,
    key: &str,
    current_class: &str,
) -> (action: Option<&'static str>)
    ensures
        action is Some <==> (key@ == "t"@ && !(target_tag matches Some(tag)
            && spec_is_text_entry_tag(tag@))),
        action matches Some(c) ==> c@ == spec_shortcut_toggle(current_class@),
{
    if let Some(tag) = target_tag {
        let t = to_lowercase(tag);
        if str_eq(t.as_str(), "input") || str_eq(t.as_str(), "textarea") || str_eq(
            t.as_str(),
            "select",
        ) {
            return None;
        }
    }
    if !str_eq(key, "t") {
        return None;
    }
    if contains(current_class, "dark") {
        Some("light")
    } else if contains(current_class, "light") {
        Some("dark")
    } else {
        Some("dark")
    }
}

/// Class that the "Change Theme" menu item gives the document root:
/// `light` when it is currently dark, `dark` otherwise.
pub fn more_menu_toggle_theme(current_class: &str) -> (class: &'static str)
    ensures
        class@ == spec_shortcut_toggle(current_class@),
{
    if contains(current_class, "dark") {
        "light"
    } else {
        "dark"
    }
}

} // verus!
