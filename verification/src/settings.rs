//! The appearance setting and how the settings page's theme dropdown maps to it.

use vstd::prelude::*;

verus! {

/// The application theme chosen in the settings.
#[derive(Clone, Copy, Debug, PartialEq, Eq, Structural)]
pub enum AppTheme {
    Dark,
    Light,
    System,
}

/// The part of the application configuration that the application logic reads.
#[derive(Clone, Copy, Debug, PartialEq, Eq, Structural)]
pub struct Config {
    pub app_theme: AppTheme,
}

/// Dropdown position of a theme: "match desktop" first, then dark, then light.
pub open spec fn spec_theme_index(theme: AppTheme) -> usize {
    match theme {
        AppTheme::System => 0,
        AppTheme::Dark => 1,
        AppTheme::Light => 2,
    }
}

/// The theme chosen by a dropdown position; any position other than 1 and 2
/// means "match desktop".
pub open spec fn spec_theme_at(index: usize) -> AppTheme {
    if index == 1 {
        AppTheme::Dark
    } else if index == 2 {
        AppTheme::Light
    } else {
        AppTheme::System
    }
}

/// Message identifiers of the dropdown's entries, in dropdown order.
pub open spec fn spec_theme_label_ids() -> Seq<Seq<char>> {
    seq!["match-desktop"@, "dark"@, "light"@]
}

/// Dropdown position of `theme` in the settings page.
pub fn theme_index(theme: AppTheme) -> (index: usize)
    ensures
        index == spec_theme_index(theme),
{
    match theme {
        AppTheme::Dark => 1,
        AppTheme::Light => 2,
        AppTheme::System => 0,
    }
}

/// The theme selected at dropdown position `index`.
pub fn theme_at(index: usize) -> (theme: AppTheme)
    ensures
        theme == spec_theme_at(index),
{
    match index {
        1 => AppTheme::Dark,
        2 => AppTheme::Light,
        _ => AppTheme::System,
    }
}

/// Message identifiers of the theme dropdown's entries, in dropdown order.
pub fn theme_label_ids() -> (ids: Vec<String>)
    ensures
        ids@.map_values(|s: String| s@) == spec_theme_label_ids(),
{
    let mut ids: Vec<String> = Vec::new();
    ids.push(String::from_str("match-desktop"));
    ids.push(String::from_str("dark"));
    ids.push(String::from_str("light"));
    assert(ids@.map_values(|s: String| s@) =~= spec_theme_label_ids());
    ids
}

/// Selecting the dropdown entry that the settings page shows as selected
/// gives back the configured theme.
pub proof fn theme_index_round_trip(theme: AppTheme)
    ensures
        spec_theme_at(spec_theme_index(theme)) == theme,
        spec_theme_index(theme) < spec_theme_label_ids().len(),
{
}

/// Every dropdown entry shows as selected when its theme is configured.
pub proof fn theme_at_round_trip(index: usize)
    requires
        index < spec_theme_label_ids().len(),
    ensures
        spec_theme_index(spec_theme_at(index)) == index,
{
}

} // verus!
