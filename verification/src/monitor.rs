//! The application state and how each message changes it.
//!
//! `Monitor::update` decides; what it asks of the outside world (a theme to
//! apply, a setting to save, a signal to send, a link to open) comes back as
//! a `Command`, and `Reaction::refresh_list` says when the process rows have
//! to be rebuilt (see `content::refresh_content`).
//!
//! The monitor is generic in three types that belong to the sampling side of
//! the application: `C`, the process column a list is sorted by; `G`, one
//! sample of system-wide figures; `I`, the identifier of a GPU.

use std::collections::VecDeque;
use vstd::prelude::*;
use vstd::std_specs::cmp::PartialEqSpec;

use crate::history::{record_sample, recent, TimedItem};
use crate::nav::{ContextPage, NavPage};
use crate::search::{escaped, pattern_compiles, search_regex, SearchRegex};
use crate::settings::{AppTheme, Config};

verus! {

/// The confirmation dialog that can be open.
#[derive(Clone, Debug)]
pub enum DialogKind {
    /// Ask before ending process `pid`; `force` kills instead of terminating.
    ProcessQuit { name: String, pid: u32, force: bool },
}

/// A GPU of the latest sample: its identifier and display name.
#[derive(Clone, Debug)]
pub struct GpuSummary<I> {
    pub id: I,
    pub name: String,
}

/// The latest sample with the GPUs it reports.
pub struct Snapshot<G, I> {
    pub item: G,
    pub gpus: Vec<GpuSummary<I>>,
}

/// The events the application reacts to.
pub enum Message<C, G, I> {
    /// Nothing happens.
    Nop,
    AppTheme(AppTheme),
    Config(Config),
    DialogCancel,
    DialogConfirm,
    DialogOpen(DialogKind),
    GpuSelect(usize),
    /// A new sample for the graphs, taken at `time`, arriving at `now`
    /// (nanoseconds on the application's monotonic clock).
    Graph { item: G, time: u64, now: u64 },
    LaunchUrl(String),
    NavPage(NavPage),
    ProcessSearch(String),
    ProcessSelect(Option<u32>),
    ProcessSort(C),
    /// Open the applications (`true`) or processes page sorted by the column, in the direction.
    SeeAllProcesses(bool, C, bool),
    /// A new snapshot of the system, with the GPUs it reports.
    Snapshot(Snapshot<G, I>),
    SystemThemeChange,
    ToggleContextPage(ContextPage),
}

/// What the outside world has to do after a message.
#[derive(Clone, Debug)]
pub enum Command {
    /// Nothing to do.
    Nop,
    /// Apply the theme to the application.
    SetTheme(AppTheme),
    /// Write the theme through the configuration handler, then report the
    /// outcome with `Monitor::app_theme_saved`.
    SaveAppTheme(AppTheme),
    /// Send signal `signal` to process `pid`.
    Signal { pid: i32, signal: i32 },
    /// Open the link with the desktop's handler.
    OpenUrl(String),
}

/// The outcome of a message: a command, and whether the process rows must be rebuilt.
pub struct Reaction {
    pub command: Command,
    pub refresh_list: bool,
}

/// `libc::SIGKILL`, which is 9 on every unix target of the crate.
#[verifier::external_body]
fn sigkill() -> (signal: i32)
    ensures
        signal == 9,
{
    libc::SIGKILL
}

/// `libc::SIGTERM`, which is 15 on every unix target of the crate.
#[verifier::external_body]
fn sigterm() -> (signal: i32)
    ensures
        signal == 15,
{
    libc::SIGTERM
}

/// The signal that ends a process: killing it when `force`, else asking it to terminate.
pub open spec fn quit_signal(force: bool) -> i32 {
    if force {
        9
    } else {
        15
    }
}

/// The command that ends the process of a confirmed quit dialog: a process
/// id beyond `i32::MAX` cannot be named to the kernel, and nothing is sent.
pub open spec fn quit_command(pid: u32, force: bool) -> Command {
    if pid <= i32::MAX {
        Command::Signal { pid: pid as i32, signal: quit_signal(force) }
    } else {
        Command::Nop
    }
}

/// The application state that the decisions read and write.
pub struct Monitor<C, G, I> {
    pub config: Config,
    /// Whether settings can be written back (a configuration handler exists).
    pub has_config_handler: bool,
    pub context_page: ContextPage,
    /// Whether the context drawer is open.
    pub show_context: bool,
    pub dialog: Option<DialogKind>,
    /// The GPU chosen for the GPU page, if any.
    pub gpu_id: Option<I>,
    /// Names of the GPUs of the latest snapshot, for the GPU dropdown.
    pub gpu_names: Vec<String>,
    /// Graph samples of the last minute, oldest first.
    pub graph_history: VecDeque<TimedItem<G>>,
    pub graph_snapshot: Option<Snapshot<G, I>>,
    /// The page active in the navigation bar.
    pub nav_page: NavPage,
    pub process_search: String,
    /// The compiled search, if the search is not empty.
    pub search_regex: Option<SearchRegex>,
    /// The process picked in a list, by id.
    pub process_selected: Option<u32>,
    /// The column the process lists are sorted by, and whether descending.
    pub process_sort: (C, bool),
}

/// The names of the GPUs of a snapshot (none without a snapshot).
pub open spec fn snapshot_gpu_names<G, I>(snapshot: Option<Snapshot<G, I>>) -> Seq<String> {
    match snapshot {
        Some(s) => s.gpus@.map_values(|g: GpuSummary<I>| g.name),
        None => Seq::empty(),
    }
}

/// The GPU identifier at position `index` of the snapshot, if there is one.
pub open spec fn snapshot_gpu_id<G, I>(snapshot: Option<Snapshot<G, I>>, index: int) -> Option<I> {
    match snapshot {
        Some(s) => if 0 <= index < s.gpus@.len() {
            Some(s.gpus@[index].id)
        } else {
            None
        },
        None => None,
    }
}

impl Reaction {
    /// Nothing to do.
    pub open spec fn spec_none() -> Reaction {
        Reaction { command: Command::Nop, refresh_list: false }
    }

    fn nothing() -> (r: Reaction)
        ensures
            r == Reaction::spec_none(),
    {
        Reaction { command: Command::Nop, refresh_list: false }
    }

    fn command(command: Command) -> (r: Reaction)
        ensures
            r == (Reaction { command, refresh_list: false }),
    {
        Reaction { command, refresh_list: false }
    }

    fn refresh() -> (r: Reaction)
        ensures
            r == (Reaction { command: Command::Nop, refresh_list: true }),
    {
        Reaction { command: Command::Nop, refresh_list: true }
    }
}

impl<C: Copy + PartialEq, G, I: Copy> Monitor<C, G, I> {
    /// The state when the application starts: the dashboard is active, the
    /// settings page is the drawer's page (closed), nothing is selected or
    /// searched, and lists are sorted ascending by `sort_category`.
    pub fn new(config: Config, has_config_handler: bool, sort_category: C) -> (m: Self)
        ensures
            m.config == config,
            m.has_config_handler == has_config_handler,
            m.context_page == ContextPage::Settings,
            !m.show_context,
            m.dialog is None,
            m.gpu_id is None,
            m.gpu_names@.len() == 0,
            m.graph_history@.len() == 0,
            m.graph_snapshot is None,
            m.nav_page == NavPage::Dashboard,
            m.process_search@.len() == 0,
            m.search_regex is None,
            m.process_selected is None,
            m.process_sort == (sort_category, false),
    {
        Monitor {
            config,
            has_config_handler,
            context_page: ContextPage::Settings,
            show_context: false,
            dialog: None,
            gpu_id: None,
            gpu_names: Vec::new(),
            graph_history: VecDeque::new(),
            graph_snapshot: None,
            nav_page: NavPage::Dashboard,
            process_search: String::new(),
            search_regex: None,
            process_selected: None,
            process_sort: (sort_category, false),
        }
    }

    /// The command that applies the configured theme.
    pub fn theme_command(&self) -> (c: Command)
        ensures
            c == Command::SetTheme(self.config.app_theme),
    {
        Command::SetTheme(self.config.app_theme)
    }

    /// Records that the theme was written through the configuration handler,
    /// and applies it.
    pub fn app_theme_saved(&mut self, theme: AppTheme) -> (c: Command)
        ensures
            *final(self) == (Monitor { config: Config { app_theme: theme }, ..*old(self) }),
            c == Command::SetTheme(theme),
    {
        self.config.app_theme = theme;
        Command::SetTheme(theme)
    }

    /// Whether the process rows are built from the applications list (on the
    /// applications page) rather than the processes list.
    pub fn lists_applications(&self) -> (r: bool)
        ensures
            r == (self.nav_page == NavPage::Applications),
    {
        match self.nav_page {
            NavPage::Applications => true,
            _ => false,
        }
    }

    /// The page shown in the context drawer, if the drawer is open.
    pub fn context_drawer(&self) -> (page: Option<ContextPage>)
        ensures
            page == (if self.show_context {
                Some(self.context_page)
            } else {
                None
            }),
    {
        if self.show_context {
            Some(self.context_page)
        } else {
            None
        }
    }

    /// Rebuilds the GPU names from the latest snapshot (the part of a list
    /// refresh that this state owns).
    fn refresh_gpu_names(&mut self)
        ensures
            final(self).gpu_names@ == snapshot_gpu_names(old(self).graph_snapshot),
            final(self).graph_snapshot == old(self).graph_snapshot,
            final(self).config == old(self).config,
            final(self).has_config_handler == old(self).has_config_handler,
            final(self).context_page == old(self).context_page,
            final(self).show_context == old(self).show_context,
            final(self).dialog == old(self).dialog,
            final(self).gpu_id == old(self).gpu_id,
            final(self).graph_history == old(self).graph_history,
            final(self).nav_page == old(self).nav_page,
            final(self).process_search == old(self).process_search,
            final(self).search_regex == old(self).search_regex,
            final(self).process_selected == old(self).process_selected,
            final(self).process_sort == old(self).process_sort,
    {
        let mut names: Vec<String> = Vec::new();
        match &self.graph_snapshot {
            Some(snapshot) => {
                let n = snapshot.gpus.len();
                let mut i: usize = 0;
                while i < n
                    invariant
                        n == snapshot.gpus@.len(),
                        i <= n,
                        names@ == snapshot.gpus@.take(i as int).map_values(
                            |g: GpuSummary<I>| g.name,
                        ),
                    decreases n - i,
                {
                    let name = snapshot.gpus[i].name.clone();
                    names.push(name);
                    proof {
                        assert(snapshot.gpus@.take(i + 1) == snapshot.gpus@.take(i as int).push(
                            snapshot.gpus@[i as int],
                        ));
                        assert(names@ =~= snapshot.gpus@.take(i + 1).map_values(
                            |g: GpuSummary<I>| g.name,
                        ));
                    }
                    i = i + 1;
                }
                assert(snapshot.gpus@.take(n as int) =~= snapshot.gpus@);
            },
            None => {
                assert(names@ =~= Seq::<String>::empty());
            },
        }
        self.gpu_names = names;
    }
}

/// `after` is `before` with the list refreshed: the GPU names rebuilt from
/// the snapshot, everything else as in `before` except the fields named by
/// the caller through `expected`.
pub open spec fn refreshed_from<C, G, I>(expected: Monitor<C, G, I>, after: Monitor<C, G, I>) -> bool {
    &&& after == (Monitor { gpu_names: after.gpu_names, ..expected })
    &&& after.gpu_names@ == snapshot_gpu_names(expected.graph_snapshot)
}

/// How many things Escape still has to close or clear: an open dialog, an
/// open drawer, a selected process, a search.
pub open spec fn escape_pending<C, G, I>(m: Monitor<C, G, I>) -> nat {
    (if m.dialog is Some {
        1nat
    } else {
        0nat
    }) + (if m.show_context {
        1nat
    } else {
        0nat
    }) + (if m.process_selected is Some {
        1nat
    } else {
        0nat
    }) + (if m.process_search@.len() != 0 || m.search_regex is Some {
        1nat
    } else {
        0nat
    })
}

/// `before` with navigation page `page` made active and the selection cleared.
pub open spec fn with_page<C, G, I>(before: Monitor<C, G, I>, page: NavPage) -> Monitor<C, G, I> {
    Monitor { nav_page: page, process_selected: None, ..before }
}

/// The sort order after pressing the header of column `category`: the same
/// column (by `==`) flips the direction, another column sorts ascending by it.
pub open spec fn sort_after_press<C: PartialEq>(sort: (C, bool), category: C) -> (C, bool) {
    if sort.0.eq_spec(&category) {
        (sort.0, !sort.1)
    } else {
        (category, false)
    }
}

/// The drawer after toggling `page`: the page already shown flips the
/// drawer open or closed; another page is shown, open.
pub open spec fn drawer_after_toggle(current: ContextPage, shown: bool, page: ContextPage) -> (
    ContextPage,
    bool,
) {
    if current == page {
        (current, !shown)
    } else {
        (page, true)
    }
}

impl<C: Copy + PartialEq, G, I: Copy> Monitor<C, G, I> {
    fn select_page(&mut self, page: NavPage) -> (r: Reaction)
        ensures
            refreshed_from(with_page(*old(self), page), *final(self)),
            r == (Reaction { command: Command::Nop, refresh_list: true }),
    {
        self.nav_page = page;
        self.process_selected = None;
        self.refresh_gpu_names();
        Reaction::refresh()
    }

    fn toggle_context_page(&mut self, page: ContextPage)
        ensures
            (final(self).context_page, final(self).show_context) == drawer_after_toggle(
                old(self).context_page,
                old(self).show_context,
                page,
            ),
            *final(self) == (Monitor {
                context_page: final(self).context_page,
                show_context: final(self).show_context,
                ..*old(self)
            }),
    {
        if self.context_page == page {
            self.show_context = !self.show_context;
        } else {
            self.context_page = page;
            self.show_context = true;
        }
    }

    fn search(&mut self, search: String) -> (r: Reaction)
        ensures
            refreshed_from(
                Monitor {
                    process_search: search,
                    search_regex: final(self).search_regex,
                    ..*old(self)
                },
                *final(self),
            ),
            search@.len() == 0 ==> final(self).search_regex is None,
            search@.len() > 0 ==> (final(self).search_regex is Some <==> pattern_compiles(
                escaped(search@),
            )),
            final(self).search_regex matches Some(s) ==> s.source() == escaped(search@),
            r == (Reaction { command: Command::Nop, refresh_list: true }),
    {
        let compiled = search_regex(search.as_str());
        self.process_search = search;
        self.search_regex = compiled;
        self.refresh_gpu_names();
        Reaction::refresh()
    }

    /// What the Escape key does: close the dialog if one is open; else close
    /// the context drawer if it is open; else drop the selected process if
    /// there is one; else clear the search if there is one.
    pub fn on_escape(&mut self) -> (r: Reaction)
        ensures
            if old(self).dialog is Some {
                *final(self) == (Monitor { dialog: None, ..*old(self) }) && r
                    == Reaction::spec_none()
            } else if old(self).show_context {
                *final(self) == (Monitor { show_context: false, ..*old(self) }) && r
                    == Reaction::spec_none()
            } else if old(self).process_selected is Some {
                *final(self) == (Monitor { process_selected: None, ..*old(self) }) && r
                    == Reaction::spec_none()
            } else if old(self).process_search@.len() != 0 || old(self).search_regex is Some {
                refreshed_from(
                    Monitor {
                        process_search: final(self).process_search,
                        search_regex: None,
                        ..*old(self)
                    },
                    *final(self),
                ) && final(self).process_search@.len() == 0 && r == (Reaction {
                    command: Command::Nop,
                    refresh_list: true,
                })
            } else {
                *final(self) == *old(self) && r == Reaction::spec_none()
            },
            escape_pending(*old(self)) == 0 || escape_pending(*final(self)) == escape_pending(
                *old(self),
            ) - 1,
    {
        if self.dialog.is_some() {
            self.dialog = None;
            return Reaction::nothing();
        }
        if self.show_context {
            let page = self.context_page;
            self.toggle_context_page(page);
            return Reaction::nothing();
        }
        if self.process_selected.is_some() {
            self.process_selected = None;
            return Reaction::nothing();
        }
        if !self.process_search.as_str().is_empty() || self.search_regex.is_some() {
            return self.search(String::new());
        }
        Reaction::nothing()
    }

    /// Reacts to `message`: changes the state and says what to do outside.
    pub fn update(&mut self, message: Message<C, G, I>) -> (r: Reaction)
        ensures
            match message {
                Message::Nop => *final(self) == *old(self) && r == Reaction::spec_none(),
                Message::AppTheme(theme) => if old(self).has_config_handler {
                    *final(self) == *old(self) && r == (Reaction {
                        command: Command::SaveAppTheme(theme),
                        refresh_list: false,
                    })
                } else {
                    *final(self) == (Monitor { config: Config { app_theme: theme }, ..*old(self) })
                        && r == (Reaction { command: Command::SetTheme(theme), refresh_list: false })
                },
                Message::Config(config) => if config != old(self).config {
                    *final(self) == (Monitor { config, ..*old(self) }) && r == (Reaction {
                        command: Command::SetTheme(config.app_theme),
                        refresh_list: false,
                    })
                } else {
                    *final(self) == *old(self) && r == Reaction::spec_none()
                },
                Message::DialogCancel => *final(self) == (Monitor { dialog: None, ..*old(self) })
                    && r == Reaction::spec_none(),
                Message::DialogConfirm => *final(self) == (Monitor { dialog: None, ..*old(self) })
                    && r == (Reaction {
                    command: match old(self).dialog {
                        Some(DialogKind::ProcessQuit { pid, force, .. }) => quit_command(pid, force),
                        None => Command::Nop,
                    },
                    refresh_list: false,
                }),
                Message::DialogOpen(kind) => *final(self) == (Monitor {
                    dialog: Some(kind),
                    ..*old(self)
                }) && r == Reaction::spec_none(),
                Message::GpuSelect(index) => refreshed_from(
                    with_page(
                        Monitor {
                            gpu_id: snapshot_gpu_id(old(self).graph_snapshot, index as int),
                            ..*old(self)
                        },
                        NavPage::Gpu,
                    ),
                    *final(self),
                ) && (match old(self).graph_snapshot {
                    Some(s) => if (index as int) < s.gpus@.len() {
                        final(self).gpu_id == Some(s.gpus@[index as int].id)
                    } else {
                        final(self).gpu_id is None
                    },
                    None => final(self).gpu_id is None,
                }) && r == (Reaction { command: Command::Nop, refresh_list: true }),
                Message::Graph { item, time, now } => *final(self) == (Monitor {
                    graph_history: final(self).graph_history,
                    ..*old(self)
                }) && final(self).graph_history@ == recent(
                    old(self).graph_history@.push((TimedItem { time, item })),
                    now,
                ) && r == Reaction::spec_none(),
                Message::LaunchUrl(url) => *final(self) == *old(self) && r == (Reaction {
                    command: Command::OpenUrl(url),
                    refresh_list: false,
                }),
                Message::NavPage(page) => refreshed_from(with_page(*old(self), page), *final(self))
                    && r == (Reaction { command: Command::Nop, refresh_list: true }),
                Message::ProcessSearch(search) => refreshed_from(
                    Monitor {
                        process_search: search,
                        search_regex: final(self).search_regex,
                        ..*old(self)
                    },
                    *final(self),
                ) && (search@.len() == 0 ==> final(self).search_regex is None) && (search@.len() > 0
                    ==> (final(self).search_regex is Some <==> pattern_compiles(escaped(search@))))
                    && (final(self).search_regex matches Some(s) ==> s.source() == escaped(search@))
                    && r == (Reaction {
                    command: Command::Nop,
                    refresh_list: true,
                }),
                Message::ProcessSelect(selected) => *final(self) == (Monitor {
                    process_selected: selected,
                    ..*old(self)
                }) && r == Reaction::spec_none(),
                Message::ProcessSort(category) => refreshed_from(
                    Monitor { process_sort: final(self).process_sort, ..*old(self) },
                    *final(self),
                ) && (final(self).process_sort == (
                    old(self).process_sort.0,
                    !old(self).process_sort.1,
                ) || final(self).process_sort == (category, false)) && (C::obeys_eq_spec()
                    ==> final(self).process_sort == sort_after_press(
                    old(self).process_sort,
                    category,
                )) && r == (Reaction { command: Command::Nop, refresh_list: true }),
                Message::SeeAllProcesses(show_apps, category, descending) => refreshed_from(
                    with_page(
                        Monitor { process_sort: (category, descending), ..*old(self) },
                        if show_apps {
                            NavPage::Applications
                        } else {
                            NavPage::Processes
                        },
                    ),
                    *final(self),
                ) && r == (Reaction { command: Command::Nop, refresh_list: true }),
                Message::Snapshot(snapshot) => refreshed_from(
                    Monitor { graph_snapshot: Some(snapshot), ..*old(self) },
                    *final(self),
                ) && r == (Reaction { command: Command::Nop, refresh_list: true }),
                Message::SystemThemeChange => *final(self) == *old(self) && r == (Reaction {
                    command: Command::SetTheme(old(self).config.app_theme),
                    refresh_list: false,
                }),
                Message::ToggleContextPage(page) => (
                    final(self).context_page,
                    final(self).show_context,
                ) == drawer_after_toggle(old(self).context_page, old(self).show_context, page)
                    && *final(self) == (Monitor {
                    context_page: final(self).context_page,
                    show_context: final(self).show_context,
                    ..*old(self)
                }) && r == Reaction::spec_none(),
            },
    {
        match message {
            Message::Nop => Reaction::nothing(),
            Message::AppTheme(theme) => {
                if self.has_config_handler {
                    Reaction::command(Command::SaveAppTheme(theme))
                } else {
                    self.config.app_theme = theme;
                    Reaction::command(Command::SetTheme(theme))
                }
            },
            Message::Config(config) => {
                if config != self.config {
                    self.config = config;
                    Reaction::command(Command::SetTheme(config.app_theme))
                } else {
                    Reaction::nothing()
                }
            },
            Message::DialogCancel => {
                self.dialog = None;
                Reaction::nothing()
            },
            Message::DialogConfirm => {
                let dialog = self.dialog.take();
                match dialog {
                    Some(DialogKind::ProcessQuit { pid, force, .. }) => {
                        if pid <= 0x7fff_ffff {
                            let signal = if force {
                                sigkill()
                            } else {
                                sigterm()
                            };
                            Reaction::command(Command::Signal { pid: pid as i32, signal })
                        } else {
                            Reaction::nothing()
                        }
                    },
                    None => Reaction::nothing(),
                }
            },
            Message::DialogOpen(kind) => {
                self.dialog = Some(kind);
                Reaction::nothing()
            },
            Message::GpuSelect(index) => {
                self.gpu_id = None;
                match &self.graph_snapshot {
                    Some(snapshot) => {
                        if index < snapshot.gpus.len() {
                            self.gpu_id = Some(snapshot.gpus[index].id);
                        }
                    },
                    None => {},
                }
                self.select_page(NavPage::Gpu)
            },
            Message::Graph { item, time, now } => {
                record_sample(&mut self.graph_history, item, time, now);
                Reaction::nothing()
            },
            Message::LaunchUrl(url) => Reaction::command(Command::OpenUrl(url)),
            Message::NavPage(page) => self.select_page(page),
            Message::ProcessSearch(search) => self.search(search),
            Message::ProcessSelect(selected) => {
                self.process_selected = selected;
                Reaction::nothing()
            },
            Message::ProcessSort(category) => {
                if self.process_sort.0 == category {
                    self.process_sort.1 = !self.process_sort.1;
                } else {
                    self.process_sort.0 = category;
                    self.process_sort.1 = false;
                }
                self.refresh_gpu_names();
                Reaction::refresh()
            },
            Message::SeeAllProcesses(show_apps, category, descending) => {
                self.process_sort = (category, descending);
                self.refresh_gpu_names();
                self.select_page(
                    if show_apps {
                        NavPage::Applications
                    } else {
                        NavPage::Processes
                    },
                )
            },
            Message::Snapshot(snapshot) => {
                self.graph_snapshot = Some(snapshot);
                self.refresh_gpu_names();
                Reaction::refresh()
            },
            Message::SystemThemeChange => Reaction::command(self.theme_command()),
            Message::ToggleContextPage(page) => {
                self.toggle_context_page(page);
                Reaction::nothing()
            },
        }
    }
}

/// Toggling the drawer's current page twice leaves the drawer as it was;
/// toggling another page twice leaves that page in the drawer, closed.
pub proof fn toggling_twice(current: ContextPage, shown: bool, page: ContextPage)
    ensures
        ({
            let (p1, s1) = drawer_after_toggle(current, shown, page);
            drawer_after_toggle(p1, s1, page) == if current == page {
                (current, shown)
            } else {
                (page, false)
            }
        }),
{
}

/// Pressing a column header twice: on the column already sorted by, the
/// direction comes back; on another column (whose `==` is reflexive), the
/// list ends up sorted by it descending.
pub proof fn pressing_header_twice<C: PartialEq>(sort: (C, bool), category: C)
    requires
        category.eq_spec(&category),
    ensures
        sort.0.eq_spec(&category) ==> sort_after_press(sort_after_press(sort, category), category)
            == sort,
        !sort.0.eq_spec(&category) ==> sort_after_press(sort_after_press(sort, category), category)
            == (category, true),
{
}

/// A confirmed quit dialog sends the kill signal when forced and the
/// terminate signal otherwise, to the process it names, whenever the process
/// id fits the kernel's `pid_t`.
pub proof fn confirmed_quit_signals(pid: u32, force: bool)
    ensures
        pid <= i32::MAX ==> quit_command(pid, force) == (Command::Signal {
            pid: pid as i32,
            signal: if force {
                9
            } else {
                15
            },
        }),
        pid > i32::MAX ==> quit_command(pid, force) == Command::Nop,
{
}

/// Selecting the GPU at `index` chooses the GPU at that position of the
/// latest snapshot, the first one included, whenever the snapshot has that
/// many GPUs; without a snapshot, or past its last GPU, no GPU is chosen.
pub proof fn selecting_a_gpu_chooses_it<G, I>(snapshot: Option<Snapshot<G, I>>, index: int)
    ensures
        match snapshot {
            Some(s) => if 0 <= index < s.gpus@.len() {
                snapshot_gpu_id(snapshot, index) == Some(s.gpus@[index].id)
            } else {
                snapshot_gpu_id(snapshot, index) is None
            },
            None => snapshot_gpu_id(snapshot, index) is None,
        },
{
}

} // verus!
