//! The tab bar.

use vstd::prelude::*;
use crate::action::Action;

verus! {

#[derive(Clone, Copy, Debug, PartialEq, Eq, Structural)]
pub enum CurrentTab {
    Torrents,
    Search,
}

impl CurrentTab {
    /// The position of the tab in the bar.
    pub fn index(&self) -> (i: usize)
        ensures
            i == (match self {
                CurrentTab::Torrents => 0usize,
                CurrentTab::Search => 1usize,
            }),
    {
        match self {
            CurrentTab::Torrents => 0,
            CurrentTab::Search => 1,
        }
    }
}

/// The tab that is current after an action: `ChangeTab` with the number of
/// a tab, counted from 1, goes there; nothing else changes the tab.
pub open spec fn tab_after(current: CurrentTab, action: Action) -> CurrentTab {
    match action {
        Action::ChangeTab(tab) => if tab == 1 {
            CurrentTab::Torrents
        } else if tab == 2 {
            CurrentTab::Search
        } else {
            current
        },
        _ => current,
    }
}

pub struct TabComponent {
    pub tabs_list: [&'static str; 2],
    pub current_tab: CurrentTab,
}

impl TabComponent {
    /// The bar with its two tabs, the first one current.
    pub fn new() -> (bar: TabComponent)
        ensures
            bar.current_tab is Torrents,
            bar.tabs_list[0]@ == "Torrents"@,
            bar.tabs_list[1]@ == "Search"@,
    {
        TabComponent { tabs_list: ["Torrents", "Search"], current_tab: CurrentTab::Torrents }
    }

    /// Handles one action. The bar never answers with an action of its own.
    pub fn handle_actions(&mut self, action: Action) -> (answer: Option<Action>)
        ensures
            answer is None,
            final(self).current_tab == tab_after(old(self).current_tab, action),
            final(self).tabs_list == old(self).tabs_list,
    {
        if let Action::ChangeTab(tab) = action {
            if tab == 1 {
                self.current_tab = CurrentTab::Torrents;
            } else if tab == 2 {
                self.current_tab = CurrentTab::Search;
            }
        }
        None
    }
}

} // verus!
