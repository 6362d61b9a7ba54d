//! The main window: the tab bar, the two tabs and the error popup, and the
//! dispatch of every action and update to the one place it belongs to.

use vstd::prelude::*;
use crate::action::{Action, ComponentAction, Event, KeyEvent, Mode};
use crate::component::Step;
use crate::hub::{Hub, HubView};
use crate::keymap::{bound_action, KeymapConfig};
use crate::messages::{ErrorMessage, ErrorMessageView, TorrentWindow, UpdateAction, UpdateActionView};
use crate::search::{SearchTab, SearchTabView};
use crate::tabs::{tab_after, CurrentTab, TabComponent};
use crate::torrents::{TorrentsTab, TorrentsTabView};

verus! {

pub struct MainWindow {
    pub tabs: TabComponent,
    pub torrents_tab: TorrentsTab,
    pub search_tab: SearchTab,
    /// The failure on show, if any: a popup above everything else.
    pub error_popup: Option<ErrorMessage>,
    pub mode: Mode,
    pub should_quit: bool,
}

pub struct MainWindowView {
    /// The labels of the tabs, in the order of the bar.
    pub tab_labels: Seq<Seq<char>>,
    pub current_tab: CurrentTab,
    pub torrents: TorrentsTabView,
    pub search: SearchTabView,
    pub error: Option<ErrorMessageView>,
    pub mode: Mode,
    pub should_quit: bool,
}

impl View for MainWindow {
    type V = MainWindowView;

    open spec fn view(&self) -> MainWindowView {
        MainWindowView {
            tab_labels: seq![self.tabs.tabs_list[0]@, self.tabs.tabs_list[1]@],
            current_tab: self.tabs.current_tab,
            torrents: self.torrents_tab@,
            search: self.search_tab@,
            error: match self.error_popup {
                Some(e) => Some(e@),
                None => None,
            },
            mode: self.mode,
            should_quit: self.should_quit,
        }
    }
}

/// The bindings that the key press is looked up in, in their order: the
/// general ones, then those of the tab on show, where the file viewer has
/// its own.
pub open spec fn key_action(
    keymap: &KeymapConfig,
    tab: CurrentTab,
    window: TorrentWindow,
    key: KeyEvent,
) -> Option<Action> {
    match bound_action(keymap.general.keybindings@, key) {
        Some(action) => Some(action),
        None => match tab {
            CurrentTab::Search => bound_action(keymap.search_tab.keybindings@, key),
            CurrentTab::Torrents => match window {
                TorrentWindow::FileViewer => bound_action(
                    keymap.torrents_tab_file_viewer.keybindings@,
                    key,
                ),
                TorrentWindow::General => bound_action(keymap.torrents_tab.keybindings@, key),
            },
        },
    }
}

impl MainWindowView {
    /// The action that a terminal event stands for, if any: in input mode a
    /// key press is text, in normal mode it is looked up in the bindings.
    pub open spec fn action_of(self, keymap: &KeymapConfig, event: Event) -> Option<Action> {
        match event {
            Event::Quit => Some(Action::Quit),
            Event::Tick => Some(Action::Tick),
            Event::Render => Some(Action::Render),
            Event::Error => None,
            Event::Key(key) => if self.mode is Input {
                Some(Action::Input(key))
            } else {
                key_action(keymap, self.current_tab, self.torrents.current_window, key)
            },
        }
    }

    /// Whether the action goes to the tab on show: the hard quit, a change
    /// of tab, a tick and a redraw do not, and nothing does while a failure
    /// is on show.
    pub open spec fn reaches_tab(self, action: Action) -> bool {
        !(action is HardQuit) && self.error is None && !(action is ChangeTab) && !(action
            is Tick) && !(action is Render)
    }

    /// Whether the window can take the action: an action that goes to the
    /// torrents tab has to be one that the popup on show there, if there is
    /// one, admits.
    pub open spec fn admits(self, action: Action) -> bool {
        self.reaches_tab(action) && self.current_tab is Torrents
            ==> crate::torrents::popups::slot_admits(self.torrents.popup, action)
    }

    /// What the window does with an action. The hard quit ends the
    /// program. While a failure is on show, a quit, `Close` or Confirm
    /// dismisses it and nothing else is taken. A change of tab goes to the
    /// tab bar. A tick goes to the torrents tab, whichever tab is on show.
    /// Every other action goes to the tab on show.
    pub open spec fn handle(self, action: Action, hub: HubView) -> Step<MainWindowView> {
        if action is HardQuit {
            Step::stay(MainWindowView { should_quit: true, ..self }, hub)
        } else if self.error is Some {
            if action.is_soft_quit() || action is Confirm {
                Step::stay(MainWindowView { error: None, ..self }, hub.with_action(Action::Render))
            } else {
                Step::stay(self, hub)
            }
        } else if action is ChangeTab {
            Step::stay(
                MainWindowView { current_tab: tab_after(self.current_tab, action), ..self },
                hub.with_action(Action::Render),
            )
        } else if action is Tick {
            let s = self.torrents.with_tasks(self.torrents.tasks.tick(hub));
            Step::stay(MainWindowView { torrents: s.state, ..self }, s.hub)
        } else if action is Render {
            Step::stay(self, hub)
        } else {
            match self.current_tab {
                CurrentTab::Torrents => {
                    let s = self.torrents.handle(action, hub);
                    Step::stay(MainWindowView { torrents: s.state, ..self }, s.hub)
                },
                CurrentTab::Search => {
                    let s = self.search.handle(action, hub);
                    Step::stay(MainWindowView { search: s.state, ..self }, s.hub)
                },
            }
        }
    }
}

/// Whether an update is one of the search: those go to the search tab.
pub open spec fn of_search(update: UpdateActionView) -> bool {
    update is SearchStarted || update is ProviderResult || update is ProviderError || update
        is SearchFinished
}

impl MainWindow {
    pub open spec fn wf(&self) -> bool {
        &&& self.torrents_tab.wf()
        &&& self.search_tab.wf()
    }

    /// A window over the two tabs, with the torrents tab on show and the
    /// keyboard in normal mode.
    pub fn new(torrents_tab: TorrentsTab, search_tab: SearchTab) -> (window: MainWindow)
        requires
            torrents_tab.wf(),
            search_tab.wf(),
        ensures
            window.wf(),
            window@ == (MainWindowView {
                tab_labels: seq!["Torrents"@, "Search"@],
                current_tab: CurrentTab::Torrents,
                torrents: torrents_tab@,
                search: search_tab@,
                error: None,
                mode: Mode::Normal,
                should_quit: false,
            }),
    {
        MainWindow {
            tabs: TabComponent::new(),
            torrents_tab,
            search_tab,
            error_popup: None,
            mode: Mode::Normal,
            should_quit: false,
        }
    }

    /// Turns a terminal event into the action to dispatch. The terminal's
    /// error event stands for none.
    pub fn event_to_action(&self, keymap: &KeymapConfig, event: Event) -> (action: Option<Action>)
        ensures
            action == self@.action_of(keymap, event),
    {
        match event {
            Event::Quit => Some(Action::Quit),
            Event::Tick => Some(Action::Tick),
            Event::Render => Some(Action::Render),
            Event::Error => None,
            Event::Key(key) => {
                if matches!(self.mode, Mode::Input) {
                    return Some(Action::Input(key));
                }
                if let Some(action) = keymap.general.action_for(key) {
                    return Some(action);
                }
                match self.tabs.current_tab {
                    CurrentTab::Search => keymap.search_tab.action_for(key),
                    CurrentTab::Torrents => match self.torrents_tab.current_window {
                        TorrentWindow::FileViewer => keymap.torrents_tab_file_viewer.action_for(
                            key,
                        ),
                        TorrentWindow::General => keymap.torrents_tab.action_for(key),
                    },
                }
            },
        }
    }

    /// Whether the window can take the action: see `MainWindowView::admits`.
    pub fn admits(&self, action: Action) -> (admitted: bool)
        ensures
            admitted == self@.admits(action),
    {
        if matches!(action, Action::HardQuit) || self.error_popup.is_some() || matches!(
            action,
            Action::ChangeTab(_) | Action::Tick | Action::Render
        ) {
            return true;
        }
        match self.tabs.current_tab {
            CurrentTab::Torrents => self.torrents_tab.admits(action),
            CurrentTab::Search => true,
        }
    }

    /// Dispatches one action that the window admits.
    pub fn handle_actions(&mut self, action: Action, hub: &mut Hub) -> (result: ComponentAction)
        requires
            old(self).wf(),
            old(self)@.admits(action),
        ensures
            final(self).wf(),
            (Step { state: final(self)@, hub: final(hub)@, result }) == old(self)@.handle(
                action,
                old(hub)@,
            ),
    {
        if matches!(action, Action::HardQuit) {
            self.should_quit = true;
            return ComponentAction::Nothing;
        }
        if self.error_popup.is_some() {
            if action.is_soft_quit() || matches!(action, Action::Confirm) {
                self.error_popup = None;
                hub.send_action(Action::Render);
            }
            return ComponentAction::Nothing;
        }
        if matches!(action, Action::ChangeTab(_)) {
            let _ = self.tabs.handle_actions(action);
            hub.send_action(Action::Render);
            return ComponentAction::Nothing;
        }
        if matches!(action, Action::Tick) {
            self.torrents_tab.tick(hub);
            return ComponentAction::Nothing;
        }
        if matches!(action, Action::Render) {
            return ComponentAction::Nothing;
        }
        match self.tabs.current_tab {
            CurrentTab::Torrents => {
                let _ = self.torrents_tab.handle_actions(action, hub);
            },
            CurrentTab::Search => {
                let _ = self.search_tab.handle_actions(action, hub);
            },
        }
        ComponentAction::Nothing
    }

    /// Applies one update. The switches of the keyboard mode are the
    /// window's own; a failure goes on show; the updates of the search go
    /// to the search tab; every other update goes to the torrents tab. A
    /// redraw is asked for behind every update.
    pub fn handle_update_action(&mut self, action: UpdateAction, hub: &mut Hub)
        requires
            old(self).wf(),
        ensures
            final(self).wf(),
            final(self).tabs == old(self).tabs,
            final(self).should_quit == old(self).should_quit,
            match action {
                UpdateAction::SwitchToInputMode => final(self)@ == (MainWindowView {
                    mode: Mode::Input,
                    ..old(self)@
                }) && final(hub)@ == old(hub)@.with_action(Action::Render),
                UpdateAction::SwitchToNormalMode => final(self)@ == (MainWindowView {
                    mode: Mode::Normal,
                    ..old(self)@
                }) && final(hub)@ == old(hub)@.with_action(Action::Render),
                UpdateAction::Error(error) => final(self)@ == (MainWindowView {
                    error: Some(error@),
                    ..old(self)@
                }) && final(hub)@ == old(hub)@.with_action(Action::Render),
                UpdateAction::UpdateCurrentTorrent(_) => final(self)@ == (MainWindowView {
                    torrents: final(self)@.torrents,
                    ..old(self)@
                }) && final(hub)@ == old(hub)@.with_action(Action::Render)
                    && final(self).torrents_tab.table_manager
                    == old(self).torrents_tab.table_manager
                    && final(self).torrents_tab.task_manager
                    == old(self).torrents_tab.task_manager && crate::torrents::popups::refreshed(
                    old(self).torrents_tab.popup_manager,
                    final(self).torrents_tab.popup_manager,
                    action,
                ),
                _ => if of_search(action@) {
                    final(self)@ == (MainWindowView {
                        search: old(self)@.search.update(action@),
                        ..old(self)@
                    }) && final(hub)@ == old(hub)@.with_action(Action::Render)
                } else {
                    final(self)@ == (MainWindowView {
                        torrents: old(self)@.torrents.update(action@, old(hub)@).state,
                        ..old(self)@
                    }) && final(hub)@ == old(self)@.torrents.update(
                        action@,
                        old(hub)@,
                    ).hub.with_action(Action::Render)
                },
            },
    {
        match action {
            UpdateAction::SwitchToInputMode => {
                self.mode = Mode::Input;
            },
            UpdateAction::SwitchToNormalMode => {
                self.mode = Mode::Normal;
            },
            UpdateAction::Error(error) => {
                self.error_popup = Some(error);
            },
            UpdateAction::SearchStarted => self.search_tab.handle_update_action(action),
            UpdateAction::ProviderResult(_) => self.search_tab.handle_update_action(action),
            UpdateAction::ProviderError(_) => self.search_tab.handle_update_action(action),
            UpdateAction::SearchFinished => self.search_tab.handle_update_action(action),
            other => self.torrents_tab.handle_update_action(other, hub),
        }
        hub.send_action(Action::Render);
    }
}

} // verus!
