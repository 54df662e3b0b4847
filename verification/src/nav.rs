use vstd::prelude::*;

use crate::monitor::Message;

verus! {

/// The pages reachable from the navigation bar.
#[derive(Clone, Copy, Debug, PartialEq, Eq, Structural)]
pub enum NavPage {
    Dashboard,
    Applications,
    Processes,
    Cpu,
    Memory,
    Gpu,
    Disk,
    Network,
}

/// The pages that can be shown in the context drawer.
#[derive(Clone, Copy, Debug, PartialEq, Eq, Structural)]
pub enum ContextPage {
    About,
    Settings,
}

/// The navigation pages in the order the navigation bar lists them.
pub open spec fn spec_all_pages() -> Seq<NavPage> {
    seq![
        NavPage::Dashboard,
        NavPage::Applications,
        NavPage::Processes,
        NavPage::Cpu,
        NavPage::Memory,
        NavPage::Gpu,
        NavPage::Disk,
        NavPage::Network,
    ]
}

impl NavPage {
    /// Every page, in navigation-bar order.
    pub fn all() -> (pages: &'static [NavPage])
        ensures
            pages@ == spec_all_pages(),
    {
        &[
            NavPage::Dashboard,
            NavPage::Applications,
            NavPage::Processes,
            NavPage::Cpu,
            NavPage::Memory,
            NavPage::Gpu,
            NavPage::Disk,
            NavPage::Network,
        ]
    }
}

/// Every page appears in the navigation bar, exactly once: so a page can
/// always be activated through the bar.
pub proof fn every_page_listed_once(page: NavPage)
    ensures
        spec_all_pages().contains(page),
        spec_all_pages().no_duplicates(),
        spec_all_pages()[0] == NavPage::Dashboard,
{
    let pages = spec_all_pages();
    let i: int = match page {
        NavPage::Dashboard => 0,
        NavPage::Applications => 1,
        NavPage::Processes => 2,
        NavPage::Cpu => 3,
        NavPage::Memory => 4,
        NavPage::Gpu => 5,
        NavPage::Disk => 6,
        NavPage::Network => 7,
    };
    assert(pages[i] == page);
}

/// The identifier of a page's title in the application's message catalog.
pub open spec fn spec_title_id(page: NavPage) -> Seq<char> {
    match page {
        NavPage::Dashboard => "dashboard"@,
        NavPage::Applications => "applications"@,
        NavPage::Processes => "processes"@,
        NavPage::Cpu => "cpu"@,
        NavPage::Memory => "memory"@,
        NavPage::Gpu => "gpu"@,
        NavPage::Disk => "disk"@,
        NavPage::Network => "network"@,
    }
}

impl NavPage {
    /// The page's title, as its identifier in the application's message
    /// catalog (the localizer turns it into display text).
    pub fn title(&self) -> (title: String)
        ensures
            title@ == spec_title_id(*self),
    {
        let id = match self {
            NavPage::Dashboard => "dashboard",
            NavPage::Applications => "applications",
            NavPage::Processes => "processes",
            NavPage::Cpu => "cpu",
            NavPage::Memory => "memory",
            NavPage::Gpu => "gpu",
            NavPage::Disk => "disk",
            NavPage::Network => "network",
        };
        String::from_str(id)
    }
}

/// The actions of the application menu.
#[derive(Clone, Copy, Debug, PartialEq, Eq, Structural)]
pub enum Action {
    /// No action.
    Nop,
    About,
    Settings,
}

impl Action {
    /// The message an action sends: the about and settings actions toggle
    /// their page in the context drawer.
    pub fn message<C, G, I>(&self) -> (m: Message<C, G, I>)
        ensures
            match *self {
                Action::Nop => m is Nop,
                Action::About => m == Message::<C, G, I>::ToggleContextPage(ContextPage::About),
                Action::Settings => m == Message::<C, G, I>::ToggleContextPage(ContextPage::Settings),
            },
    {
        match self {
            Action::Nop => Message::Nop,
            Action::About => Message::ToggleContextPage(ContextPage::About),
            Action::Settings => Message::ToggleContextPage(ContextPage::Settings),
        }
    }
}

/// An entry of the application menu.
#[derive(Clone, Debug)]
pub enum MenuEntry {
    /// A button labelled by a message-catalog identifier, running an action.
    Button(String, Action),
    Divider,
}

/// The application menu: settings, a divider, about.
pub fn menu_entries() -> (entries: Vec<MenuEntry>)
    ensures
        entries@.len() == 3,
        entries@[0] matches MenuEntry::Button(label, action) && label@ == "menu-settings"@ && action
            == Action::Settings,
        entries@[1] is Divider,
        entries@[2] matches MenuEntry::Button(label, action) && label@ == "menu-about"@ && action
            == Action::About,
{
    let mut entries: Vec<MenuEntry> = Vec::new();
    entries.push(MenuEntry::Button(String::from_str("menu-settings"), Action::Settings));
    entries.push(MenuEntry::Divider);
    entries.push(MenuEntry::Button(String::from_str("menu-about"), Action::About));
    entries
}

} // verus!
