use cosmic_monitor::dashboard::{
    busiest, dashboard_cards, grid_rows, list_counts, total, CardKind, DashboardLayout,
    GpuCardSource,
};
use cosmic_monitor::monitor::Message;
use cosmic_monitor::nav::NavPage;

#[test]
fn dashboard_cards_follow_the_gpus() {
    let gpus = vec![
        GpuCardSource { has_usage: true, has_vram: true },
        GpuCardSource { has_usage: false, has_vram: false },
        GpuCardSource { has_usage: false, has_vram: true },
    ];
    assert_eq!(
        dashboard_cards(&gpus),
        vec![
            CardKind::Cpu,
            CardKind::Memory,
            CardKind::Disk,
            CardKind::Network,
            CardKind::GpuUsage(0),
            CardKind::GpuVram(0),
            CardKind::GpuVram(2),
        ]
    );
    assert_eq!(dashboard_cards(&vec![]).len(), 4);
}

#[test]
fn card_titles_and_messages() {
    assert_eq!(CardKind::Cpu.title_id(), "cpu");
    assert_eq!(CardKind::GpuVram(1).title_id(), "gpu-vram-index");
    assert!(matches!(
        CardKind::Disk.message::<u8, u32, u32>(),
        Message::NavPage(NavPage::Disk)
    ));
    assert!(matches!(CardKind::GpuUsage(3).message::<u8, u32, u32>(), Message::GpuSelect(3)));
    assert!(!CardKind::Network.shows_top_process());
    assert!(CardKind::Memory.shows_top_process());
}

#[test]
fn grid_rows_fill_then_pad() {
    assert_eq!(grid_rows(7, 3), vec![3, 3, 1]);
    assert_eq!(grid_rows(6, 3), vec![3, 3]);
    assert_eq!(grid_rows(4, 4), vec![4]);
    assert_eq!(grid_rows(0, 2), Vec::<usize>::new());
    assert_eq!(grid_rows(5, 1), vec![1, 1, 1, 1, 1]);
}

#[test]
fn list_counts_examples() {
    assert_eq!(list_counts(DashboardLayout::Large, 2, 12, 700), (13, 13));
    assert_eq!(list_counts(DashboardLayout::Medium, 2, 12, 700), (5, 5));
    assert_eq!(list_counts(DashboardLayout::Medium, 2, 12, 1000), (8, 9));
    assert_eq!(list_counts(DashboardLayout::Small, 2, 12, 100_000), (5, 5));
    assert_eq!(list_counts(DashboardLayout::Large, 1, 12, 1_000_000), (50, 50));
    // the graph rows set the limit when they are taller than the window
    assert_eq!(list_counts(DashboardLayout::Large, 4, 12, 0), (17, 17));
}

#[test]
fn busiest_interface_is_the_last_largest() {
    assert_eq!(busiest(&vec![]), None);
    assert_eq!(busiest(&vec![5]), Some(0));
    assert_eq!(busiest(&vec![3, 9, 1, 9, 2]), Some(3));
    assert_eq!(busiest(&vec![9, 1, 2]), Some(0));
}

#[test]
fn disk_totals() {
    assert_eq!(total(&vec![]), 0);
    assert_eq!(total(&vec![1, 2, 3]), 6);
    assert_eq!(total(&vec![u64::MAX - 1, 1]), u64::MAX);
}
