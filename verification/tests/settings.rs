use cosmic_monitor::settings::{theme_at, theme_index, theme_label_ids, AppTheme};

#[test]
fn theme_dropdown_positions() {
    assert_eq!(theme_index(AppTheme::System), 0);
    assert_eq!(theme_index(AppTheme::Dark), 1);
    assert_eq!(theme_index(AppTheme::Light), 2);
    assert_eq!(theme_at(0), AppTheme::System);
    assert_eq!(theme_at(1), AppTheme::Dark);
    assert_eq!(theme_at(2), AppTheme::Light);
    assert_eq!(theme_at(7), AppTheme::System);
}

#[test]
fn theme_round_trip_and_labels() {
    let labels = theme_label_ids();
    assert_eq!(labels, vec!["match-desktop", "dark", "light"]);
    for theme in [AppTheme::System, AppTheme::Dark, AppTheme::Light] {
        assert_eq!(theme_at(theme_index(theme)), theme);
        assert!(theme_index(theme) < labels.len());
    }
}
