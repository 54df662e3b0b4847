use cosmic_monitor::monitor::{Command, DialogKind, GpuSummary, Message, Monitor, Snapshot};
use cosmic_monitor::nav::{ContextPage, NavPage};
use cosmic_monitor::settings::{AppTheme, Config};

#[derive(Clone, Copy, Debug, PartialEq)]
enum Column {
    Name,
    Cpu,
}

type M = Monitor<Column, u32, u64>;
type Msg = Message<Column, u32, u64>;

fn monitor(handler: bool) -> M {
    Monitor::new(Config { app_theme: AppTheme::System }, handler, Column::Name)
}

fn quit(pid: u32, force: bool) -> DialogKind {
    DialogKind::ProcessQuit { name: "app".to_string(), pid, force }
}

#[test]
fn monitor_starts_on_the_dashboard() {
    let m = monitor(false);
    assert_eq!(m.nav_page, NavPage::Dashboard);
    assert_eq!(m.context_page, ContextPage::Settings);
    assert!(!m.show_context);
    assert!(m.dialog.is_none());
    assert_eq!(m.process_sort, (Column::Name, false));
    assert!(m.graph_snapshot.is_none());
}

#[test]
fn theme_without_handler_applies_directly() {
    let mut m = monitor(false);
    let r = m.update(Msg::AppTheme(AppTheme::Dark));
    assert!(matches!(r.command, Command::SetTheme(AppTheme::Dark)));
    assert!(!r.refresh_list);
    assert_eq!(m.config.app_theme, AppTheme::Dark);
}

#[test]
fn theme_with_handler_is_saved_first() {
    let mut m = monitor(true);
    let r = m.update(Msg::AppTheme(AppTheme::Light));
    assert!(matches!(r.command, Command::SaveAppTheme(AppTheme::Light)));
    assert_eq!(m.config.app_theme, AppTheme::System);
    m.update(Msg::DialogOpen(quit(7, false)));
    m.update(Msg::ProcessSearch("fire".to_string()));
    assert!(matches!(m.app_theme_saved(AppTheme::Light), Command::SetTheme(AppTheme::Light)));
    assert_eq!(m.config.app_theme, AppTheme::Light);
    assert!(matches!(m.dialog, Some(DialogKind::ProcessQuit { pid: 7, force: false, .. })));
    assert_eq!(m.process_search, "fire");
    assert_eq!(m.search_regex.as_ref().unwrap().pattern(), "fire");
}

#[test]
fn config_change_applies_theme_once() {
    let mut m = monitor(false);
    let r = m.update(Msg::Config(Config { app_theme: AppTheme::Dark }));
    assert!(matches!(r.command, Command::SetTheme(AppTheme::Dark)));
    let r = m.update(Msg::Config(Config { app_theme: AppTheme::Dark }));
    assert!(matches!(r.command, Command::Nop));
    let r = m.update(Msg::SystemThemeChange);
    assert!(matches!(r.command, Command::SetTheme(AppTheme::Dark)));
}

#[test]
fn confirming_quit_sends_the_signal() {
    let mut m = monitor(false);
    m.update(Msg::DialogOpen(quit(1234, true)));
    assert!(m.dialog.is_some());
    let r = m.update(Msg::DialogConfirm);
    assert!(matches!(r.command, Command::Signal { pid: 1234, signal: 9 }));
    assert!(m.dialog.is_none());
    m.update(Msg::DialogOpen(quit(77, false)));
    let r = m.update(Msg::DialogConfirm);
    assert!(matches!(r.command, Command::Signal { pid: 77, signal: 15 }));
}

#[test]
fn quit_of_unnameable_pid_sends_nothing() {
    let mut m = monitor(false);
    m.update(Msg::DialogOpen(quit(u32::MAX, true)));
    assert!(matches!(m.update(Msg::DialogConfirm).command, Command::Nop));
    assert!(matches!(m.update(Msg::DialogConfirm).command, Command::Nop));
}

#[test]
fn cancel_closes_the_dialog() {
    let mut m = monitor(false);
    m.update(Msg::DialogOpen(quit(5, false)));
    let r = m.update(Msg::DialogCancel);
    assert!(matches!(r.command, Command::Nop));
    assert!(m.dialog.is_none());
}

#[test]
fn toggling_the_drawer() {
    let mut m = monitor(false);
    m.update(Msg::ToggleContextPage(ContextPage::Settings));
    assert!(m.show_context);
    m.update(Msg::ToggleContextPage(ContextPage::Settings));
    assert!(!m.show_context);
    m.update(Msg::ToggleContextPage(ContextPage::About));
    assert_eq!(m.context_page, ContextPage::About);
    assert!(m.show_context);
    m.update(Msg::ToggleContextPage(ContextPage::Settings));
    assert_eq!(m.context_page, ContextPage::Settings);
    assert!(m.show_context);
    assert_eq!(m.context_drawer(), Some(ContextPage::Settings));
}

#[test]
fn sorting_by_a_column() {
    let mut m = monitor(false);
    let r = m.update(Msg::ProcessSort(Column::Name));
    assert!(r.refresh_list);
    assert_eq!(m.process_sort, (Column::Name, true));
    m.update(Msg::ProcessSort(Column::Name));
    assert_eq!(m.process_sort, (Column::Name, false));
    m.update(Msg::ProcessSort(Column::Cpu));
    assert_eq!(m.process_sort, (Column::Cpu, false));
    m.update(Msg::ProcessSort(Column::Cpu));
    assert_eq!(m.process_sort, (Column::Cpu, true));
}

#[test]
fn see_all_opens_the_list_sorted() {
    let mut m = monitor(false);
    m.update(Msg::ProcessSelect(Some(3)));
    let r = m.update(Msg::SeeAllProcesses(true, Column::Cpu, true));
    assert!(r.refresh_list);
    assert_eq!(m.nav_page, NavPage::Applications);
    assert_eq!(m.process_sort, (Column::Cpu, true));
    assert!(m.process_selected.is_none());
    assert!(m.lists_applications());
    m.update(Msg::SeeAllProcesses(false, Column::Name, false));
    assert_eq!(m.nav_page, NavPage::Processes);
    assert!(!m.lists_applications());
}

fn snapshot(names: &[&str]) -> Msg {
    Msg::Snapshot(Snapshot {
        item: 0,
        gpus: names
            .iter()
            .enumerate()
            .map(|(i, n)| GpuSummary { id: 100 + i as u64, name: n.to_string() })
            .collect(),
    })
}

#[test]
fn snapshot_and_gpu_selection() {
    let mut m = monitor(false);
    let r = m.update(Msg::GpuSelect(0));
    assert!(m.gpu_id.is_none());
    assert_eq!(m.nav_page, NavPage::Gpu);
    assert!(r.refresh_list);
    m.update(snapshot(&["iGPU", "dGPU"]));
    assert_eq!(m.gpu_names, vec!["iGPU".to_string(), "dGPU".to_string()]);
    m.update(Msg::GpuSelect(1));
    assert_eq!(m.gpu_id, Some(101));
    m.update(Msg::GpuSelect(5));
    assert_eq!(m.gpu_id, None);
}

#[test]
fn graph_samples_expire_after_a_minute() {
    let mut m = monitor(false);
    let s = 1_000_000_000u64;
    m.update(Msg::Graph { item: 1, time: 0, now: 0 });
    m.update(Msg::Graph { item: 2, time: 59 * s, now: 59 * s });
    m.update(Msg::Graph { item: 3, time: 61 * s, now: 61 * s });
    let items: Vec<u32> = m.graph_history.iter().map(|e| e.item).collect();
    assert_eq!(items, vec![2, 3]);
}

#[test]
fn launching_a_link() {
    let mut m = monitor(false);
    let r = m.update(Msg::LaunchUrl("https://example.org".to_string()));
    assert!(matches!(r.command, Command::OpenUrl(ref u) if u == "https://example.org"));
    assert!(matches!(m.update(Msg::Nop).command, Command::Nop));
}

#[test]
fn search_compiles_and_clears() {
    let mut m = monitor(false);
    m.update(Msg::ProcessSearch("FiReFoX".to_string()));
    assert_eq!(m.process_search, "FiReFoX");
    let compiled = m.search_regex.as_ref().unwrap();
    assert_eq!(compiled.pattern(), "FiReFoX");
    assert!(compiled.regex().is_match("firefox-bin"));
    m.update(Msg::ProcessSearch("a+b".to_string()));
    assert_eq!(m.search_regex.as_ref().unwrap().pattern(), "a\\+b");
    assert!(!m.search_regex.as_ref().unwrap().regex().is_match("aab"));
    m.update(Msg::ProcessSearch(String::new()));
    assert!(m.search_regex.is_none());
}

#[test]
fn escape_steps_back_one_thing_at_a_time() {
    let mut m = monitor(false);
    m.update(Msg::ProcessSearch("bash".to_string()));
    m.update(Msg::ProcessSelect(Some(42)));
    m.update(Msg::ToggleContextPage(ContextPage::About));
    m.update(Msg::DialogOpen(quit(42, false)));

    assert!(!m.on_escape().refresh_list);
    assert!(m.dialog.is_none());
    assert!(m.show_context);

    m.on_escape();
    assert!(!m.show_context);
    assert_eq!(m.context_page, ContextPage::About);
    assert_eq!(m.process_selected, Some(42));

    m.on_escape();
    assert!(m.process_selected.is_none());
    assert_eq!(m.process_search, "bash");

    assert!(m.on_escape().refresh_list);
    assert_eq!(m.process_search, "");
    assert!(m.search_regex.is_none());

    let r = m.on_escape();
    assert!(matches!(r.command, Command::Nop));
    assert!(!r.refresh_list);
}
