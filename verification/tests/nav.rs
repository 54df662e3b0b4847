use cosmic_monitor::monitor::Message;
use cosmic_monitor::nav::{menu_entries, Action, ContextPage, MenuEntry, NavPage};

type Msg = Message<u8, u32, u32>;

#[test]
fn nav_pages_in_bar_order() {
    assert_eq!(
        NavPage::all(),
        &[
            NavPage::Dashboard,
            NavPage::Applications,
            NavPage::Processes,
            NavPage::Cpu,
            NavPage::Memory,
            NavPage::Gpu,
            NavPage::Disk,
            NavPage::Network,
        ]
    );
}

#[test]
fn nav_page_titles_are_catalog_ids() {
    let titles: Vec<String> = NavPage::all().iter().map(|p| p.title()).collect();
    assert_eq!(
        titles,
        vec!["dashboard", "applications", "processes", "cpu", "memory", "gpu", "disk", "network"]
    );
}

#[test]
fn actions_toggle_their_drawer_page() {
    assert!(matches!(Action::Nop.message::<u8, u32, u32>(), Msg::Nop));
    assert!(matches!(
        Action::About.message::<u8, u32, u32>(),
        Msg::ToggleContextPage(ContextPage::About)
    ));
    assert!(matches!(
        Action::Settings.message::<u8, u32, u32>(),
        Msg::ToggleContextPage(ContextPage::Settings)
    ));
}

#[test]
fn menu_lists_settings_divider_about() {
    let entries = menu_entries();
    assert_eq!(entries.len(), 3);
    assert!(matches!(&entries[0], MenuEntry::Button(l, Action::Settings) if l == "menu-settings"));
    assert!(matches!(&entries[1], MenuEntry::Divider));
    assert!(matches!(&entries[2], MenuEntry::Button(l, Action::About) if l == "menu-about"));
}
