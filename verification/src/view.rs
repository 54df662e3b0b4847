//! Decisions behind the pages: which content a page shows, which GPU the GPU
//! page describes, which process the footer names, which row is
//! highlighted, how the list header marks the sort column, and the texts of
//! the quit dialog.

use vstd::prelude::*;
use vstd::std_specs::cmp::PartialEqSpec;

use crate::monitor::{DialogKind, Message};
use crate::nav::NavPage;

verus! {

/// The content of the active page.
#[derive(Clone, Copy, Debug, PartialEq, Eq, Structural)]
pub enum PageView {
    Dashboard,
    /// The sortable, searchable list of applications or processes.
    ProcessList,
    Cpu,
    Memory,
    Gpu,
    Disk,
    Network,
    /// Nothing sampled yet: a busy indicator.
    Loading,
}

/// What page `page` shows: the process lists need no sample; the other
/// pages show a busy indicator until the first sample arrives.
pub open spec fn spec_page_view(page: NavPage, has_snapshot: bool) -> PageView {
    match page {
        NavPage::Applications | NavPage::Processes => PageView::ProcessList,
        _ => if !has_snapshot {
            PageView::Loading
        } else {
            match page {
                NavPage::Dashboard => PageView::Dashboard,
                NavPage::Cpu => PageView::Cpu,
                NavPage::Memory => PageView::Memory,
                NavPage::Gpu => PageView::Gpu,
                NavPage::Disk => PageView::Disk,
                _ => PageView::Network,
            }
        },
    }
}

/// What page `page` shows, with or without a sample.
pub fn page_view(page: NavPage, has_snapshot: bool) -> (v: PageView)
    ensures
        v == spec_page_view(page, has_snapshot),
{
    match (page, has_snapshot) {
        (NavPage::Dashboard, true) => PageView::Dashboard,
        (NavPage::Applications, _) | (NavPage::Processes, _) => PageView::ProcessList,
        (NavPage::Cpu, true) => PageView::Cpu,
        (NavPage::Memory, true) => PageView::Memory,
        (NavPage::Gpu, true) => PageView::Gpu,
        (NavPage::Disk, true) => PageView::Disk,
        (NavPage::Network, true) => PageView::Network,
        _ => PageView::Loading,
    }
}

/// What each page shows: the applications and processes pages always show
/// the process list; any other page shows the loading indicator until a
/// sample is there, and then content of its own: no two of them show the
/// same view, and none shows the process list or the loading indicator.
pub proof fn pages_show_their_own_view(p: NavPage, q: NavPage, has_snapshot: bool)
    ensures
        (p == NavPage::Applications || p == NavPage::Processes) ==> spec_page_view(
            p,
            has_snapshot,
        ) == PageView::ProcessList,
        !(p == NavPage::Applications || p == NavPage::Processes) && !has_snapshot
            ==> spec_page_view(p, has_snapshot) == PageView::Loading,
        !(p == NavPage::Applications || p == NavPage::Processes) ==> spec_page_view(p, true)
            != PageView::Loading && spec_page_view(p, true) != PageView::ProcessList,
        !(p == NavPage::Applications || p == NavPage::Processes) && !(q == NavPage::Applications
            || q == NavPage::Processes) && spec_page_view(p, true) == spec_page_view(q, true)
            ==> p == q,
        p == NavPage::Dashboard ==> spec_page_view(p, true) == PageView::Dashboard,
        p == NavPage::Cpu ==> spec_page_view(p, true) == PageView::Cpu,
        p == NavPage::Memory ==> spec_page_view(p, true) == PageView::Memory,
        p == NavPage::Gpu ==> spec_page_view(p, true) == PageView::Gpu,
        p == NavPage::Disk ==> spec_page_view(p, true) == PageView::Disk,
        p == NavPage::Network ==> spec_page_view(p, true) == PageView::Network,
{
}

/// A GPU as the GPU page chooses among them.
#[derive(Clone, Copy, Debug)]
pub struct GpuChoice<I> {
    pub id: I,
    /// The firmware booted on this GPU.
    pub boot_vga: bool,
}

/// Whether `gpu` is the one the GPU page asks for: the chosen one if a GPU
/// was chosen (by `==` on identifiers), else the boot GPU.
pub open spec fn wanted_gpu<I: PartialEq>(chosen: Option<I>, gpu: GpuChoice<I>) -> bool {
    match chosen {
        Some(id) => id.eq_spec(&gpu.id),
        None => gpu.boot_vga,
    }
}

/// The GPU the GPU page describes: the first wanted one, else the first
/// GPU; none when there is no GPU.
pub fn select_gpu<I: PartialEq>(chosen: &Option<I>, gpus: &Vec<GpuChoice<I>>) -> (index: Option<
    usize,
>)
    ensures
        index is None <==> gpus@.len() == 0,
        index matches Some(i) ==> i < gpus@.len(),
        I::obeys_eq_spec() ==> (index matches Some(i) ==> (wanted_gpu(*chosen, gpus@[i as int])
            && forall|j: int| 0 <= j < i ==> !wanted_gpu(*chosen, #[trigger] gpus@[j])) || (i == 0
            && forall|j: int| 0 <= j < gpus@.len() ==> !wanted_gpu(*chosen, #[trigger] gpus@[j]))),
{
    let n = gpus.len();
    let mut i: usize = 0;
    while i < n
        invariant
            n == gpus@.len(),
            i <= n,
            I::obeys_eq_spec() ==> forall|j: int|
                0 <= j < i ==> !wanted_gpu(*chosen, #[trigger] gpus@[j]),
        decreases n - i,
    {
        let wanted = match chosen {
            Some(id) => *id == gpus[i].id,
            None => gpus[i].boot_vga,
        };
        if wanted {
            return Some(i);
        }
        i = i + 1;
    }
    if n > 0 {
        Some(0)
    } else {
        None
    }
}

/// The first position whose process id is `pid`.
pub open spec fn is_first_with_pid(pids: Seq<Option<u32>>, pid: u32, i: int) -> bool {
    &&& 0 <= i < pids.len()
    &&& pids[i] == Some(pid)
    &&& forall|j: int| 0 <= j < i ==> #[trigger] pids[j] != Some(pid)
}

/// The process the footer describes: the first process of the list with
/// the selected id, if a process is selected and the list holds it.
pub fn footer_target(selected: Option<u32>, pids: &Vec<Option<u32>>) -> (index: Option<usize>)
    ensures
        selected is None ==> index is None,
        selected matches Some(pid) ==> (index matches Some(i) ==> is_first_with_pid(
            pids@,
            pid,
            i as int,
        )) && (index is None ==> forall|j: int|
            0 <= j < pids@.len() ==> #[trigger] pids@[j] != Some(pid)),
{
    match selected {
        None => None,
        Some(pid) => {
            let mut i: usize = 0;
            while i < pids.len()
                invariant
                    selected == Some(pid),
                    i <= pids@.len(),
                    forall|j: int| 0 <= j < i ==> #[trigger] pids@[j] != Some(pid),
                decreases pids@.len() - i,
            {
                match pids[i] {
                    Some(p) => {
                        if p == pid {
                            return Some(i);
                        }
                    },
                    None => {},
                }
                i = i + 1;
            }
            None
        },
    }
}

/// The two dialogs the footer offers for process `pid`: force quit, then quit.
pub fn quit_dialogs(name: &String, pid: u32) -> (dialogs: (DialogKind, DialogKind))
    ensures
        dialogs.0 matches DialogKind::ProcessQuit { name: n, pid: p, force: f } && n@ == name@ && p
            == pid && f,
        dialogs.1 matches DialogKind::ProcessQuit { name: n, pid: p, force: f } && n@ == name@ && p
            == pid && !f,
{
    (
        DialogKind::ProcessQuit { name: name.clone(), pid, force: true },
        DialogKind::ProcessQuit { name: name.clone(), pid, force: false },
    )
}

/// Whether the row of process `pid` is highlighted: a process is selected
/// and it is this one.
pub fn row_selected(selected: Option<u32>, pid: Option<u32>) -> (r: bool)
    ensures
        r == (selected is Some && selected == pid),
{
    match (selected, pid) {
        (Some(s), Some(p)) => s == p,
        _ => false,
    }
}

/// A column header of a process list.
pub struct HeaderCell<C> {
    pub category: C,
    /// The icon marking the sort column and its direction.
    pub sort_icon: Option<String>,
    /// Whether pressing the header sorts by the column.
    pub sortable: bool,
}

/// The sort icon of the sort column: up when descending, down when ascending.
pub open spec fn sort_icon_name(descending: bool) -> Seq<char> {
    if descending {
        "pan-up-symbolic"@
    } else {
        "pan-down-symbolic"@
    }
}

/// Whether `cell` is the header of column `category`, pressable as
/// `sortable` says, and with the icon for the direction if it has one.
pub open spec fn header_of<C>(cell: HeaderCell<C>, category: C, sortable: bool, descending: bool) -> bool {
    &&& cell.category == category
    &&& cell.sortable == sortable
    &&& match cell.sort_icon {
        Some(icon) => icon@ == sort_icon_name(descending),
        None => true,
    }
}

/// The headers of the columns `categories`: the column equal (by `==`) to
/// `sort_category` carries the sort icon; all are pressable if `sortable`.
pub fn header_cells<C: Copy + PartialEq>(
    categories: &Vec<C>,
    sort_category: C,
    descending: bool,
    sortable: bool,
) -> (cells: Vec<HeaderCell<C>>)
    ensures
        cells@.len() == categories@.len(),
        forall|i: int|
            0 <= i < cells@.len() ==> header_of(
                #[trigger] cells@[i],
                categories@[i],
                sortable,
                descending,
            ),
        C::obeys_eq_spec() ==> forall|i: int|
            0 <= i < cells@.len() ==> (#[trigger] cells@[i].sort_icon is Some <==> categories@[i].eq_spec(
                &sort_category,
            )),
{
    let mut cells: Vec<HeaderCell<C>> = Vec::new();
    let mut i: usize = 0;
    while i < categories.len()
        invariant
            i <= categories@.len(),
            cells@.len() == i,
            forall|k: int|
                0 <= k < i ==> header_of(#[trigger] cells@[k], categories@[k], sortable, descending),
            C::obeys_eq_spec() ==> forall|k: int|
                0 <= k < i ==> (#[trigger] cells@[k].sort_icon is Some <==> categories@[k].eq_spec(
                    &sort_category,
                )),
        decreases categories@.len() - i,
    {
        let category = categories[i];
        let sort_icon = if category == sort_category {
            let name = if descending {
                String::from_str("pan-up-symbolic")
            } else {
                String::from_str("pan-down-symbolic")
            };
            assert(name@ == sort_icon_name(descending));
            Some(name)
        } else {
            None
        };
        let ghost before = cells@;
        cells.push(HeaderCell { category, sort_icon, sortable });
        assert(cells@ == before.push(HeaderCell { category, sort_icon, sortable }));
        assert(header_of(cells@[i as int], categories@[i as int], sortable, descending));
        i = i + 1;
    }
    cells
}

/// The message a sortable header sends when pressed.
pub fn header_message<C, G, I>(category: C) -> (m: Message<C, G, I>)
    ensures
        m == Message::<C, G, I>::ProcessSort(category),
{
    Message::ProcessSort(category)
}

/// Message-catalog identifiers of the quit dialog's title, body and
/// confirming button.
pub open spec fn spec_dialog_text_ids(force: bool) -> (Seq<char>, Seq<char>, Seq<char>) {
    if force {
        ("force-quit-title"@, "force-quit-body"@, "force-quit"@)
    } else {
        ("quit-title"@, "quit-body"@, "quit"@)
    }
}

impl DialogKind {
    /// Message-catalog identifiers of the dialog's title, body (which takes
    /// the process name) and confirming button.
    pub fn text_ids(&self) -> (ids: (String, String, String))
        ensures
            match *self {
                DialogKind::ProcessQuit { force, .. } => (ids.0@, ids.1@, ids.2@)
                    == spec_dialog_text_ids(force),
            },
    {
        match self {
            DialogKind::ProcessQuit { force, .. } => {
                if *force {
                    (
                        String::from_str("force-quit-title"),
                        String::from_str("force-quit-body"),
                        String::from_str("force-quit"),
                    )
                } else {
                    (
                        String::from_str("quit-title"),
                        String::from_str("quit-body"),
                        String::from_str("quit"),
                    )
                }
            },
        }
    }
}

/// Message-catalog identifiers of a top list's title and of its button
/// that opens the whole list.
pub open spec fn spec_top_list_ids(show_apps: bool) -> (Seq<char>, Seq<char>) {
    if show_apps {
        ("applications"@, "see-all-applications"@)
    } else {
        ("processes"@, "see-all-processes"@)
    }
}

/// Identifiers of the title and the see-all button of the top applications
/// (`show_apps`) or top processes list.
pub fn top_list_ids(show_apps: bool) -> (ids: (String, String))
    ensures
        (ids.0@, ids.1@) == spec_top_list_ids(show_apps),
{
    if show_apps {
        (String::from_str("applications"), String::from_str("see-all-applications"))
    } else {
        (String::from_str("processes"), String::from_str("see-all-processes"))
    }
}

/// The message of a top list's see-all button: open the whole list sorted
/// as the top list is.
pub fn see_all_message<C, G, I>(show_apps: bool, category: C, descending: bool) -> (m: Message<
    C,
    G,
    I,
>)
    ensures
        m == Message::<C, G, I>::SeeAllProcesses(show_apps, category, descending),
{
    Message::SeeAllProcesses(show_apps, category, descending)
}

/// How many top processes a page lists beside its graph: seven when they
/// fit beside it, five below it.
pub fn top_process_rows(beside_graph: bool) -> (rows: usize)
    ensures
        rows == if beside_graph {
            7usize
        } else {
            5usize
        },
{
    if beside_graph {
        7
    } else {
        5
    }
}

} // verus!
