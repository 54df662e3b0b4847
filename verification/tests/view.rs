use cosmic_monitor::monitor::{DialogKind, Message};
use cosmic_monitor::nav::NavPage;
use cosmic_monitor::view::{
    footer_target, header_cells, header_message, page_view, quit_dialogs, row_selected,
    see_all_message, select_gpu, top_list_ids, top_process_rows, GpuChoice, PageView,
};

#[test]
fn pages_without_a_sample_are_loading() {
    assert_eq!(page_view(NavPage::Dashboard, false), PageView::Loading);
    assert_eq!(page_view(NavPage::Dashboard, true), PageView::Dashboard);
    assert_eq!(page_view(NavPage::Processes, false), PageView::ProcessList);
    assert_eq!(page_view(NavPage::Applications, true), PageView::ProcessList);
    assert_eq!(page_view(NavPage::Gpu, true), PageView::Gpu);
    assert_eq!(page_view(NavPage::Network, false), PageView::Loading);
    assert_eq!(page_view(NavPage::Network, true), PageView::Network);
}

#[test]
fn gpu_page_choice() {
    let gpus = vec![
        GpuChoice { id: 10u32, boot_vga: false },
        GpuChoice { id: 11, boot_vga: true },
        GpuChoice { id: 12, boot_vga: false },
    ];
    assert_eq!(select_gpu(&None, &gpus), Some(1));
    assert_eq!(select_gpu(&Some(12), &gpus), Some(2));
    assert_eq!(select_gpu(&Some(99), &gpus), Some(0));
    let no_boot = vec![GpuChoice { id: 1u32, boot_vga: false }];
    assert_eq!(select_gpu(&None, &no_boot), Some(0));
    assert_eq!(select_gpu::<u32>(&None, &vec![]), None);
}

#[test]
fn footer_names_the_selected_process() {
    let pids = vec![Some(1), None, Some(7), Some(7)];
    assert_eq!(footer_target(None, &pids), None);
    assert_eq!(footer_target(Some(7), &pids), Some(2));
    assert_eq!(footer_target(Some(8), &pids), None);
    let (force, plain) = quit_dialogs(&"vim".to_string(), 7);
    assert!(matches!(force, DialogKind::ProcessQuit { ref name, pid: 7, force: true } if name == "vim"));
    assert!(matches!(plain, DialogKind::ProcessQuit { ref name, pid: 7, force: false } if name == "vim"));
}

#[test]
fn highlighted_rows() {
    assert!(row_selected(Some(3), Some(3)));
    assert!(!row_selected(Some(3), Some(4)));
    assert!(!row_selected(Some(3), None));
    assert!(!row_selected(None, None));
}

#[test]
fn list_headers_mark_the_sort_column() {
    let cells = header_cells(&vec!['a', 'b', 'c'], 'b', true, true);
    assert_eq!(cells.len(), 3);
    assert!(cells[0].sort_icon.is_none());
    assert_eq!(cells[1].sort_icon.as_deref(), Some("pan-up-symbolic"));
    assert!(cells[2].sort_icon.is_none());
    assert!(cells.iter().all(|c| c.sortable));
    let cells = header_cells(&vec!['a', 'b'], 'a', false, false);
    assert_eq!(cells[0].sort_icon.as_deref(), Some("pan-down-symbolic"));
    assert!(!cells[0].sortable);
    assert!(matches!(header_message::<char, u32, u32>('a'), Message::ProcessSort('a')));
}

#[test]
fn dialog_and_list_texts() {
    let force = DialogKind::ProcessQuit { name: "x".into(), pid: 1, force: true };
    let (t, b, c) = force.text_ids();
    assert_eq!((t.as_str(), b.as_str(), c.as_str()), ("force-quit-title", "force-quit-body", "force-quit"));
    let plain = DialogKind::ProcessQuit { name: "x".into(), pid: 1, force: false };
    let (t, b, c) = plain.text_ids();
    assert_eq!((t.as_str(), b.as_str(), c.as_str()), ("quit-title", "quit-body", "quit"));
    assert_eq!(top_list_ids(true), ("applications".to_string(), "see-all-applications".to_string()));
    assert_eq!(top_list_ids(false), ("processes".to_string(), "see-all-processes".to_string()));
    assert!(matches!(see_all_message::<u8, u32, u32>(true, 4, false), Message::SeeAllProcesses(true, 4, false)));
    assert_eq!(top_process_rows(true), 7);
    assert_eq!(top_process_rows(false), 5);
}
