//! The search tab: the phrase, the list of results, and what each
//! provider is doing.

pub mod aggregator;
pub mod bottom_bar;
pub mod popups;
pub mod results;

use vstd::prelude::*;
use vstd::string::*;
use crate::action::{Action, ComponentAction, KeyCode, KeyEvent};
use crate::component::Step;
use crate::hub::{Hub, HubView};
use crate::input::{asks_edit, InputManager, InputView};
use crate::messages::{
    Command, CommandView, Magnet, OpenTarget, ProviderErrorKind, SearchWindow, UpdateAction,
    UpdateActionView, WhichProvider,
};
use crate::search::aggregator::{
    answering, each_once, Answer, AggregatorView, SearchAggregator,
};
use crate::search::bottom_bar::{
    count_enabled, count_finished, BottomBar, BottomBarView, SearchStage, SearchState,
};
use crate::search::popups::{slot_handle, CurrentPopup, PopupManager};
use crate::search::results::{by_seeders, merge_by_seeders};
use crate::table::GenericTable;
use crate::tasks::{categories_view, Category};

verus! {

/// Which part of the tab has the keyboard.
#[derive(Clone, Copy, Debug, PartialEq, Eq, Structural)]
pub enum SearchTabFocus {
    Search,
    List,
}

/// What a provider is doing for the search that is on, or did for the
/// last one.
#[derive(Clone, Debug, PartialEq, Eq)]
pub enum ProviderState {
    Idle,
    Searching,
    Found(usize),
    /// The race was over before the provider answered.
    Timeout,
    Error(ProviderErrorKind),
}

#[derive(Clone, Debug, PartialEq, Eq)]
pub struct ConfiguredProvider {
    pub provider: WhichProvider,
    pub provider_state: ProviderState,
    pub enabled: bool,
}

impl ConfiguredProvider {
    /// A provider at rest.
    pub fn new(provider: WhichProvider, enabled: bool) -> (configured: ConfiguredProvider)
        ensures
            configured == (ConfiguredProvider {
                provider,
                provider_state: ProviderState::Idle,
                enabled,
            }),
    {
        ConfiguredProvider { provider, provider_state: ProviderState::Idle, enabled }
    }

    /// A copy.
    pub fn duplicate(&self) -> (copy: ConfiguredProvider)
        ensures
            copy == *self,
    {
        ConfiguredProvider {
            provider: self.provider,
            provider_state: match &self.provider_state {
                ProviderState::Idle => ProviderState::Idle,
                ProviderState::Searching => ProviderState::Searching,
                ProviderState::Found(n) => ProviderState::Found(*n),
                ProviderState::Timeout => ProviderState::Timeout,
                ProviderState::Error(kind) => ProviderState::Error(
                    match kind {
                        ProviderErrorKind::Connection(text) => ProviderErrorKind::Connection(
                            text.clone(),
                        ),
                        ProviderErrorKind::Html => ProviderErrorKind::Html,
                    },
                ),
            },
            enabled: self.enabled,
        }
    }
}

/// The providers that a search is run on: `magnetease::WhichProvider::all`,
/// which lists every provider the crate knows, each once: Knaben, then
/// Nyaa.
#[verifier::external_body]
fn all_providers() -> (providers: Vec<WhichProvider>)
    ensures
        providers@ == seq![WhichProvider::Knaben, WhichProvider::Nyaa],
{
    magnetease::WhichProvider::all().into_iter().map(|p| match p {
        magnetease::WhichProvider::Knaben => WhichProvider::Knaben,
        magnetease::WhichProvider::Nyaa => WhichProvider::Nyaa,
    }).collect()
}

/// Every enabled provider starts to search; the others stay as they are.
pub open spec fn searching(providers: Seq<ConfiguredProvider>) -> Seq<ConfiguredProvider> {
    Seq::new(
        providers.len(),
        |i: int|
            if providers[i].enabled {
                ConfiguredProvider { provider_state: ProviderState::Searching, ..providers[i] }
            } else {
                providers[i]
            },
    )
}

/// Every provider that still searches has timed out; the others stay as
/// they are.
pub open spec fn timed_out(providers: Seq<ConfiguredProvider>) -> Seq<ConfiguredProvider> {
    Seq::new(
        providers.len(),
        |i: int|
            if providers[i].provider_state is Searching {
                ConfiguredProvider { provider_state: ProviderState::Timeout, ..providers[i] }
            } else {
                providers[i]
            },
    )
}

/// The place of the first entry for the provider.
pub open spec fn place_of(providers: Seq<ConfiguredProvider>, provider: WhichProvider) -> Option<
    int,
>
    decreases providers.len(),
{
    if providers.len() == 0 {
        None
    } else if providers[0].provider == provider {
        Some(0)
    } else {
        match place_of(providers.drop_first(), provider) {
            Some(i) => Some(i + 1),
            None => None,
        }
    }
}

/// The first entry for the provider gets the state; without an entry for
/// it nothing changes.
pub open spec fn with_state(
    providers: Seq<ConfiguredProvider>,
    provider: WhichProvider,
    state: ProviderState,
) -> Seq<ConfiguredProvider> {
    match place_of(providers, provider) {
        Some(i) => providers.update(
            i,
            ConfiguredProvider { provider_state: state, ..providers[i] },
        ),
        None => providers,
    }
}

/// What an update of the search does to the providers.
pub open spec fn providers_after(providers: Seq<ConfiguredProvider>, update: UpdateActionView)
    -> Seq<ConfiguredProvider> {
    match update {
        UpdateActionView::SearchStarted => searching(providers),
        UpdateActionView::ProviderResult(response) => with_state(
            providers,
            response.provider,
            ProviderState::Found(response.magnets@.len() as usize),
        ),
        UpdateActionView::ProviderError(error) => with_state(
            providers,
            error.provider,
            ProviderState::Error(error.kind),
        ),
        UpdateActionView::SearchFinished => timed_out(providers),
        _ => providers,
    }
}

pub struct SearchTab {
    pub current_window: SearchWindow,
    pub focus: SearchTabFocus,
    pub input: InputManager,
    pub aggregator: SearchAggregator,
    pub table: GenericTable<Magnet>,
    pub popup_manager: PopupManager,
    pub configured_providers: Vec<ConfiguredProvider>,
    pub bottom_bar: BottomBar,
    /// How many rows the last redraw had room for.
    pub currently_displaying_no: u16,
}

pub struct SearchTabView {
    pub current_window: SearchWindow,
    pub focus: SearchTabFocus,
    pub input: InputView,
    pub aggregator: AggregatorView,
    pub items: Seq<Magnet>,
    pub cursor: Option<usize>,
    /// The first row on screen, kept between redraws.
    pub offset: usize,
    pub popup: Option<Seq<ConfiguredProvider>>,
    pub providers: Seq<ConfiguredProvider>,
    pub bottom: BottomBarView,
    pub displaying_no: u16,
}

impl View for SearchTab {
    type V = SearchTabView;

    open spec fn view(&self) -> SearchTabView {
        SearchTabView {
            current_window: self.current_window,
            focus: self.focus,
            input: self.input@,
            aggregator: self.aggregator@,
            items: self.table.items@,
            cursor: self.table.selected,
            offset: self.table.offset,
            popup: self.popup_manager@,
            providers: self.configured_providers@,
            bottom: self.bottom_bar@,
            displaying_no: self.currently_displaying_no,
        }
    }
}

/// The providers of a new tab: every provider that there is, at rest, and
/// enabled if it is named in `enabled`.
pub open spec fn listed_providers(enabled: Seq<WhichProvider>) -> Seq<ConfiguredProvider> {
    seq![
        ConfiguredProvider {
            provider: WhichProvider::Knaben,
            provider_state: ProviderState::Idle,
            enabled: enabled.contains(WhichProvider::Knaben),
        },
        ConfiguredProvider {
            provider: WhichProvider::Nyaa,
            provider_state: ProviderState::Idle,
            enabled: enabled.contains(WhichProvider::Nyaa),
        },
    ]
}

impl SearchTabView {
    /// A new tab: no phrase, no results, no popup, the keyboard with the
    /// list, and no race on.
    pub open spec fn start(
        enabled: Seq<WhichProvider>,
        categories: Seq<crate::tasks::CategoryView>,
        download_dir: Seq<char>,
    ) -> SearchTabView {
        SearchTabView {
            current_window: SearchWindow::General,
            focus: SearchTabFocus::List,
            input: InputView::empty(Seq::empty()),
            aggregator: AggregatorView {
                providers: each_once(enabled),
                generation: 0,
                pending: Seq::empty(),
                racing: false,
            },
            items: Seq::empty(),
            cursor: None,
            offset: 0,
            popup: None,
            providers: listed_providers(enabled),
            bottom: BottomBarView {
                search_state: SearchState {
                    stage: SearchStage::Nothing,
                    finished: count_finished(listed_providers(enabled)) as usize,
                    enabled: count_enabled(listed_providers(enabled)) as usize,
                },
                task: None,
                categories,
                download_dir,
            },
            displaying_no: 0,
        }
    }

    /// The cursor goes to another row, and a redraw is asked for.
    pub open spec fn moved(self, cursor: Option<usize>, hub: HubView) -> Step<SearchTabView> {
        Step::stay(SearchTabView { cursor, ..self }, hub.with_action(Action::Render))
    }

    /// A key press in the phrase box. Enter behind a phrase starts the
    /// race for it and hands the keyboard back to the list; behind nothing
    /// it does nothing. Esc hands the keyboard back. Any other key edits
    /// the phrase, with a redraw whenever the key asks for an edit, also
    /// where the edit changes nothing.
    pub open spec fn on_key(self, key: KeyEvent, hub: HubView) -> Step<SearchTabView> {
        if key.code is Enter {
            if self.input.text.len() > 0 {
                let started = self.aggregator.start(self.input.text, hub);
                Step::stay(
                    SearchTabView {
                        aggregator: started.0,
                        focus: SearchTabFocus::List,
                        ..self
                    },
                    started.1.with_update(UpdateActionView::SwitchToNormalMode),
                )
            } else {
                Step::stay(self, hub)
            }
        } else if key.code is Esc {
            Step::stay(
                SearchTabView { focus: SearchTabFocus::List, ..self },
                hub.with_update(UpdateActionView::SwitchToNormalMode),
            )
        } else {
            Step::stay(
                SearchTabView { input: self.input.after_key(key), ..self },
                if asks_edit(key) {
                    hub.with_action(Action::Render)
                } else {
                    hub
                },
            )
        }
    }

    /// The verbs of the tab, for when no popup stands in the way.
    pub open spec fn handle_verb(self, action: Action, hub: HubView) -> Step<SearchTabView> {
        let len = self.items.len();
        match action {
            Action::Quit => Step::stay(self, hub.with_action(Action::Quit)),
            Action::Search => Step::stay(
                SearchTabView { focus: SearchTabFocus::Search, ..self },
                hub.with_update(UpdateActionView::SwitchToInputMode),
            ),
            Action::ChangeFocus => Step::stay(
                SearchTabView {
                    focus: match self.focus {
                        SearchTabFocus::Search => SearchTabFocus::List,
                        SearchTabFocus::List => SearchTabFocus::Search,
                    },
                    ..self
                },
                hub.with_action(Action::Render),
            ),
            Action::Input(key) => if self.bottom.task is Some {
                let s = self.bottom.handle(action, hub);
                Step::stay(SearchTabView { bottom: s.0, ..self }, s.1)
            } else {
                self.on_key(key, hub)
            },
            Action::Down => self.moved(GenericTable::<Magnet>::after_next(self.cursor, len), hub),
            Action::Up => self.moved(GenericTable::<Magnet>::after_previous(self.cursor, len), hub),
            Action::ScrollUpBy(amount) => self.moved(
                GenericTable::<Magnet>::after_scroll_up(self.cursor, len, amount as nat),
                hub,
            ),
            Action::ScrollDownBy(amount) => self.moved(
                GenericTable::<Magnet>::after_scroll_down(self.cursor, len, amount as nat),
                hub,
            ),
            Action::ScrollDownPage => self.moved(
                GenericTable::<Magnet>::after_scroll_down(
                    self.cursor,
                    len,
                    self.displaying_no as nat,
                ),
                hub,
            ),
            Action::ScrollUpPage => self.moved(
                GenericTable::<Magnet>::after_scroll_up(
                    self.cursor,
                    len,
                    self.displaying_no as nat,
                ),
                hub,
            ),
            Action::Home => self.moved(
                if len == 0 {
                    self.cursor
                } else {
                    Some(0usize)
                },
                hub,
            ),
            Action::End => self.moved(
                if len == 0 {
                    self.cursor
                } else {
                    Some((len - 1) as usize)
                },
                hub,
            ),
            Action::Confirm => match self.cursor {
                Some(i) => {
                    let s = self.bottom.add_magnet(self.items[i as int].url@, hub);
                    Step::stay(SearchTabView { bottom: s.0, ..self }, s.1)
                },
                None => Step::stay(self, hub),
            },
            Action::XdgOpen => match self.cursor {
                Some(i) => Step::stay(
                    self,
                    hub.with_command(
                        CommandView::Open {
                            path: self.items[i as int].url@,
                            target: OpenTarget::Link,
                        },
                    ),
                ),
                None => Step::stay(self, hub),
            },
            Action::ShowProvidersInfo => Step::stay(
                SearchTabView { popup: Some(self.providers), ..self },
                hub.with_action(Action::Render),
            ),
            _ => Step::stay(self, hub),
        }
    }

    /// What the tab does with an action. A popup on show gets every action,
    /// and nothing else does. Else a quit is passed on as the hard quit,
    /// and the action is one of the tab's verbs or passes unnoticed.
    pub open spec fn handle(self, action: Action, hub: HubView) -> Step<SearchTabView> {
        if self.popup is Some {
            let s = slot_handle(self.popup, action, hub);
            Step::stay(SearchTabView { popup: s.state, ..self }, s.hub)
        } else if action.is_quit() {
            self.handle_verb(action, hub.with_action(Action::HardQuit))
        } else {
            self.handle_verb(action, hub)
        }
    }

    /// The tab with other provider states: the counts in the bottom line
    /// and the popup, if it is on show, follow.
    pub open spec fn with_providers(self, providers: Seq<ConfiguredProvider>) -> SearchTabView {
        SearchTabView {
            providers,
            bottom: BottomBarView {
                search_state: SearchState {
                    finished: count_finished(providers) as usize,
                    enabled: count_enabled(providers) as usize,
                    ..self.bottom.search_state
                },
                ..self.bottom
            },
            popup: match self.popup {
                Some(_) => Some(providers),
                None => None,
            },
            ..self
        }
    }

    /// The tab with another stage of the search in the bottom line.
    pub open spec fn at_stage(self, stage: SearchStage) -> SearchTabView {
        SearchTabView {
            bottom: BottomBarView {
                search_state: SearchState { stage, ..self.bottom.search_state },
                ..self.bottom
            },
            ..self
        }
    }

    /// What the tab does with an update. The start of a search empties the
    /// list and sets the enabled providers searching. A provider's results
    /// are merged into the list, most seeders first, and the cursor is put
    /// on the first result if there was none; its state shows how many it
    /// found. A provider's failure shows in its state and touches nothing
    /// else. At the end of a search every provider that still searches has
    /// timed out, and the bottom line tells how many results there are, if
    /// any. No other update concerns the tab.
    pub open spec fn update(self, update: UpdateActionView) -> SearchTabView {
        let tab = self.with_providers(providers_after(self.providers, update));
        match update {
            UpdateActionView::SearchStarted => (SearchTabView {
                items: Seq::empty(),
                cursor: None,
                ..tab
            }).at_stage(SearchStage::Searching),
            UpdateActionView::ProviderResult(response) => {
                let items = by_seeders(self.items + response.magnets@);
                SearchTabView {
                    items,
                    cursor: if items.len() > 0 && self.cursor is None {
                        Some(0usize)
                    } else {
                        self.cursor
                    },
                    ..tab
                }
            },
            UpdateActionView::ProviderError(_) => tab,
            UpdateActionView::SearchFinished => tab.at_stage(
                if self.items.len() == 0 {
                    SearchStage::NotFound
                } else {
                    SearchStage::Found(self.items.len() as usize)
                },
            ),
            _ => self,
        }
    }
}

impl SearchTab {
    /// The list and the aggregator are in order, and the aggregator races
    /// the providers that are enabled here.
    pub open spec fn wf(&self) -> bool {
        &&& self.table.wf()
        &&& self.table.overwritten_len is None
        &&& self.aggregator@.wf()
    }

    /// A tab without results. Every provider that the search crate knows
    /// is listed, and those named in `enabled` are enabled.
    pub fn new(enabled: &Vec<WhichProvider>, categories: Vec<Category>, download_dir: String)
        -> (tab: SearchTab)
        ensures
            tab.wf(),
            tab@ == SearchTabView::start(enabled@, categories_view(categories@), download_dir@),
    {
        let all = all_providers();
        let mut configured_providers: Vec<ConfiguredProvider> = Vec::new();
        let mut i: usize = 0;
        while i < all.len()
            invariant
                0 <= i <= all@.len(),
                configured_providers@.len() == i,
                forall|k: int|
                    0 <= k < i ==> configured_providers@[k] == (ConfiguredProvider {
                        provider: all@[k],
                        provider_state: ProviderState::Idle,
                        enabled: enabled@.contains(all@[k]),
                    }),
            decreases all@.len() - i,
        {
            let provider = all[i];
            let is_enabled = Self::lists(enabled, provider);
            configured_providers.push(ConfiguredProvider::new(provider, is_enabled));
            i = i + 1;
        }
        assert(configured_providers@ =~= listed_providers(enabled@));
        let bottom_bar = BottomBar::new(&configured_providers, categories, download_dir);
        let tab = SearchTab {
            current_window: SearchWindow::General,
            focus: SearchTabFocus::List,
            input: InputManager::new(String::new()),
            aggregator: SearchAggregator::new(enabled),
            table: GenericTable::new(Vec::new()),
            bottom_bar,
            currently_displaying_no: 0,
            popup_manager: PopupManager::new(),
            configured_providers,
        };
        assert(tab@.items =~= Seq::<Magnet>::empty());
        tab
    }

    fn lists(list: &Vec<WhichProvider>, provider: WhichProvider) -> (found: bool)
        ensures
            found == list@.contains(provider),
    {
        let mut i: usize = 0;
        while i < list.len()
            invariant
                0 <= i <= list@.len(),
                forall|k: int| 0 <= k < i ==> list@[k] != provider,
            decreases list@.len() - i,
        {
            if list[i] == provider {
                return true;
            }
            i = i + 1;
        }
        false
    }

    fn copy_providers(&self) -> (copy: Vec<ConfiguredProvider>)
        ensures
            copy@ == self.configured_providers@,
    {
        let mut copy: Vec<ConfiguredProvider> = Vec::new();
        let mut i: usize = 0;
        while i < self.configured_providers.len()
            invariant
                0 <= i <= self.configured_providers@.len(),
                copy@ == self.configured_providers@.take(i as int),
            decreases self.configured_providers@.len() - i,
        {
            copy.push(self.configured_providers[i].duplicate());
            assert(copy@ =~= self.configured_providers@.take(i + 1));
            i = i + 1;
        }
        assert(self.configured_providers@.take(self.configured_providers@.len() as int)
            =~= self.configured_providers@);
        copy
    }

    fn change_focus(&mut self, hub: &mut Hub)
        ensures
            final(self).focus == (match old(self).focus {
                SearchTabFocus::Search => SearchTabFocus::List,
                SearchTabFocus::List => SearchTabFocus::Search,
            }),
            final(self)@ == (SearchTabView { focus: final(self).focus, ..old(self)@ }),
            final(self).table == old(self).table,
            final(hub)@ == old(hub)@.with_action(Action::Render),
    {
        if matches!(self.focus, SearchTabFocus::Search) {
            self.focus = SearchTabFocus::List;
        } else {
            self.focus = SearchTabFocus::Search;
        }
        hub.send_action(Action::Render);
    }

    fn add_magnet(&mut self, hub: &mut Hub)
        requires
            old(self).wf(),
        ensures
            final(self).wf(),
            (Step { state: final(self)@, hub: final(hub)@, result: ComponentAction::Nothing })
                == (match old(self)@.cursor {
                Some(i) => {
                    let s = old(self)@.bottom.add_magnet(old(self)@.items[i as int].url@, old(hub)@);
                    Step::stay(SearchTabView { bottom: s.0, ..old(self)@ }, s.1)
                },
                None => Step::stay(old(self)@, old(hub)@),
            }),
    {
        let magnet_url = match self.table.current_item() {
            Some(magnet) => magnet.url.clone(),
            None => {
                return;
            },
        };
        self.bottom_bar.add_magnet(magnet_url, hub);
    }

    fn handle_input(&mut self, input: KeyEvent, hub: &mut Hub)
        requires
            old(self).wf(),
        ensures
            final(self).wf(),
            (Step { state: final(self)@, hub: final(hub)@, result: ComponentAction::Nothing })
                == old(self)@.on_key(input, old(hub)@),
    {
        match input.code {
            KeyCode::Enter => {
                let phrase = self.input.text();
                if phrase.as_str().unicode_len() > 0 {
                    self.aggregator.start(phrase, hub);
                    self.focus = SearchTabFocus::List;
                    hub.send_update_action(UpdateAction::SwitchToNormalMode);
                }
            },
            KeyCode::Esc => {
                self.focus = SearchTabFocus::List;
                hub.send_update_action(UpdateAction::SwitchToNormalMode);
            },
            _ => {
                self.input.handle(input);
                if InputManager::is_edit_key(input) {
                    hub.send_action(Action::Render);
                }
            },
        }
    }

    fn xdg_open(&self, hub: &mut Hub)
        requires
            self.wf(),
        ensures
            final(hub)@ == (match self@.cursor {
                Some(i) => old(hub)@.with_command(
                    CommandView::Open { path: self@.items[i as int].url@, target: OpenTarget::Link },
                ),
                None => old(hub)@,
            }),
    {
        if let Some(magnet) = self.table.current_item() {
            hub.send_command(Command::Open { path: magnet.url.clone(), target: OpenTarget::Link });
        }
    }

    fn show_providers_info(&mut self, hub: &mut Hub)
        ensures
            final(self)@ == (SearchTabView { popup: Some(old(self)@.providers), ..old(self)@ }),
            final(self).table == old(self).table,
            final(hub)@ == old(hub)@.with_action(Action::Render),
    {
        let providers = self.copy_providers();
        self.popup_manager.show_providers_info_popup(providers);
        hub.send_action(Action::Render);
    }

    fn handle_verb(&mut self, action: Action, hub: &mut Hub)
        requires
            old(self).wf(),
        ensures
            final(self).wf(),
            (Step { state: final(self)@, hub: final(hub)@, result: ComponentAction::Nothing })
                == old(self)@.handle_verb(action, old(hub)@),
    {
        match action {
            Action::Quit => hub.send_action(Action::Quit),
            Action::Search => {
                self.focus = SearchTabFocus::Search;
                hub.send_update_action(UpdateAction::SwitchToInputMode);
            },
            Action::ChangeFocus => self.change_focus(hub),
            Action::Input(input) => {
                if self.bottom_bar.requires_input() {
                    self.bottom_bar.handle_actions(action, hub);
                } else {
                    self.handle_input(input, hub);
                }
            },
            Action::Down => {
                self.table.next();
                hub.send_action(Action::Render);
            },
            Action::Up => {
                self.table.previous();
                hub.send_action(Action::Render);
            },
            Action::ScrollUpBy(amount) => {
                self.table.scroll_up_by(amount as usize);
                hub.send_action(Action::Render);
            },
            Action::ScrollDownBy(amount) => {
                self.table.scroll_down_by(amount as usize);
                hub.send_action(Action::Render);
            },
            Action::ScrollDownPage => {
                self.table.scroll_down_by(self.currently_displaying_no as usize);
                hub.send_action(Action::Render);
            },
            Action::ScrollUpPage => {
                self.table.scroll_up_by(self.currently_displaying_no as usize);
                hub.send_action(Action::Render);
            },
            Action::Home => {
                self.table.select_first();
                hub.send_action(Action::Render);
            },
            Action::End => {
                self.table.select_last();
                hub.send_action(Action::Render);
            },
            Action::Confirm => self.add_magnet(hub),
            Action::XdgOpen => self.xdg_open(hub),
            Action::ShowProvidersInfo => self.show_providers_info(hub),
            _ => (),
        }
    }

    /// Handles one action. The tab itself never asks to be closed.
    pub fn handle_actions(&mut self, action: Action, hub: &mut Hub) -> (result: ComponentAction)
        requires
            old(self).wf(),
        ensures
            final(self).wf(),
            (Step { state: final(self)@, hub: final(hub)@, result }) == old(self)@.handle(
                action,
                old(hub)@,
            ),
    {
        if self.popup_manager.is_showing_popup() {
            let _ = self.popup_manager.handle_actions(action, hub);
            return ComponentAction::Nothing;
        }
        if action.is_quit() {
            hub.send_action(Action::HardQuit);
        }
        self.handle_verb(action, hub);
        ComponentAction::Nothing
    }

    fn providers_searching(&mut self)
        ensures
            final(self).configured_providers@ == searching(old(self).configured_providers@),
            final(self)@ == (SearchTabView {
                providers: final(self).configured_providers@,
                ..old(self)@
            }),
            final(self).table == old(self).table,
            final(self).aggregator == old(self).aggregator,
    {
        let mut i: usize = 0;
        while i < self.configured_providers.len()
            invariant
                0 <= i <= self.configured_providers@.len(),
                self.configured_providers@.len() == old(self).configured_providers@.len(),
                forall|k: int|
                    0 <= k < i ==> self.configured_providers@[k] == searching(
                        old(self).configured_providers@,
                    )[k],
                forall|k: int|
                    i <= k < self.configured_providers@.len() ==> self.configured_providers@[k]
                        == old(self).configured_providers@[k],
                self@ == (SearchTabView { providers: self.configured_providers@, ..old(self)@ }),
                self.table == old(self).table,
                self.aggregator == old(self).aggregator,
            decreases self.configured_providers@.len() - i,
        {
            if self.configured_providers[i].enabled {
                self.configured_providers[i].provider_state = ProviderState::Searching;
            }
            i = i + 1;
        }
        assert(self.configured_providers@ =~= searching(old(self).configured_providers@));
    }

    fn providers_timed_out(&mut self)
        ensures
            final(self).configured_providers@ == timed_out(old(self).configured_providers@),
            final(self)@ == (SearchTabView {
                providers: final(self).configured_providers@,
                ..old(self)@
            }),
            final(self).table == old(self).table,
            final(self).aggregator == old(self).aggregator,
    {
        let mut i: usize = 0;
        while i < self.configured_providers.len()
            invariant
                0 <= i <= self.configured_providers@.len(),
                self.configured_providers@.len() == old(self).configured_providers@.len(),
                forall|k: int|
                    0 <= k < i ==> self.configured_providers@[k] == timed_out(
                        old(self).configured_providers@,
                    )[k],
                forall|k: int|
                    i <= k < self.configured_providers@.len() ==> self.configured_providers@[k]
                        == old(self).configured_providers@[k],
                self@ == (SearchTabView { providers: self.configured_providers@, ..old(self)@ }),
                self.table == old(self).table,
                self.aggregator == old(self).aggregator,
            decreases self.configured_providers@.len() - i,
        {
            if matches!(self.configured_providers[i].provider_state, ProviderState::Searching) {
                self.configured_providers[i].provider_state = ProviderState::Timeout;
            }
            i = i + 1;
        }
        assert(self.configured_providers@ =~= timed_out(old(self).configured_providers@));
    }

    fn provider_state(&mut self, provider: WhichProvider, state: ProviderState)
        ensures
            final(self).configured_providers@ == with_state(
                old(self).configured_providers@,
                provider,
                state,
            ),
            final(self)@ == (SearchTabView {
                providers: final(self).configured_providers@,
                ..old(self)@
            }),
            final(self).table == old(self).table,
            final(self).aggregator == old(self).aggregator,
    {
        let ghost all = self.configured_providers@;
        let mut i: usize = 0;
        assert(all.skip(0) =~= all);
        while i < self.configured_providers.len()
            invariant
                0 <= i <= all.len(),
                *self == *old(self),
                all == self.configured_providers@,
                place_of(all, provider) == (match place_of(all.skip(i as int), provider) {
                    Some(k) => Some(k + i),
                    None => None,
                }),
            decreases all.len() - i,
        {
            assert(all.skip(i as int).drop_first() =~= all.skip(i + 1));
            assert(all.skip(i as int)[0] == all[i as int]);
            if self.configured_providers[i].provider == provider {
                self.configured_providers[i].provider_state = state;
                assert(self.configured_providers@ =~= with_state(all, provider, state));
                return;
            }
            i = i + 1;
        }
        assert(all.skip(all.len() as int) =~= Seq::<ConfiguredProvider>::empty());
    }

    fn update_providers_popup(&mut self)
        ensures
            final(self)@ == (SearchTabView {
                popup: match old(self)@.popup {
                    Some(_) => Some(old(self)@.providers),
                    None => None,
                },
                ..old(self)@
            }),
            final(self).table == old(self).table,
            final(self).aggregator == old(self).aggregator,
    {
        let providers = self.copy_providers();
        if let Some(CurrentPopup::Providers(popup)) = &mut self.popup_manager.current_popup {
            popup.update_providers(providers);
        }
    }

    fn providers_changed(&mut self)
        ensures
            final(self)@ == old(self)@.with_providers(old(self)@.providers),
            final(self).table == old(self).table,
            final(self).aggregator == old(self).aggregator,
    {
        self.bottom_bar.search_state.update_counts(&self.configured_providers);
        self.update_providers_popup();
    }

    /// Applies one update.
    pub fn handle_update_action(&mut self, action: UpdateAction)
        requires
            old(self).wf(),
        ensures
            final(self).wf(),
            final(self)@ == old(self)@.update(action@),
    {
        match action {
            UpdateAction::SearchStarted => {
                self.providers_searching();
                self.table.clear();
                self.providers_changed();
                self.bottom_bar.search_state.searching();
                assert(self@.items =~= Seq::<Magnet>::empty());
            },
            UpdateAction::ProviderResult(response) => {
                self.provider_state(
                    response.provider,
                    ProviderState::Found(response.magnets.len()),
                );
                self.providers_changed();
                proof {
                    crate::search::results::lemma_by_seeders_permutes(
                        self.table.items@ + response.magnets@,
                    );
                }
                merge_by_seeders(&mut self.table.items, response.magnets);
                if self.table.items.len() > 0 && self.table.selected.is_none() {
                    self.table.selected = Some(0);
                }
            },
            UpdateAction::ProviderError(e) => {
                self.provider_state(e.provider, ProviderState::Error(e.kind));
                self.providers_changed();
            },
            UpdateAction::SearchFinished => {
                self.providers_timed_out();
                self.providers_changed();
                if self.table.items.len() == 0 {
                    self.bottom_bar.search_state.not_found();
                } else {
                    self.bottom_bar.search_state.found(self.table.items.len());
                }
            },
            _ => (),
        }
    }

    /// Keeps the number of rows that the last redraw had room for.
    pub fn set_displaying_no(&mut self, rows: u16)
        ensures
            final(self)@ == (SearchTabView { displaying_no: rows, ..old(self)@ }),
            final(self).table == old(self).table,
            final(self).aggregator == old(self).aggregator,
    {
        self.currently_displaying_no = rows;
    }
}

/// No two entries are for the same provider.
pub open spec fn distinct(providers: Seq<ConfiguredProvider>) -> bool {
    forall|i: int, j: int|
        0 <= i < j < providers.len() ==> (#[trigger] providers[i]).provider != (
        #[trigger] providers[j]).provider
}

/// What an answer makes of its provider's state.
pub open spec fn answer_state(answer: Answer) -> ProviderState {
    match answer {
        Answer::Found(response) => ProviderState::Found(response.magnets@.len() as usize),
        Answer::Failed(error) => ProviderState::Error(error.kind),
    }
}

/// The providers after the answers were published, one after the other.
pub open spec fn after_answers(providers: Seq<ConfiguredProvider>, answers: Seq<Answer>) -> Seq<
    ConfiguredProvider,
>
    decreases answers.len(),
{
    if answers.len() == 0 {
        providers
    } else {
        providers_after(after_answers(providers, answers.drop_last()), answers.last().update())
    }
}

/// The place of a provider is that of its first entry.
pub proof fn lemma_place_of(providers: Seq<ConfiguredProvider>, provider: WhichProvider)
    ensures
        match place_of(providers, provider) {
            Some(i) => 0 <= i < providers.len() && providers[i].provider == provider && forall|
                k: int,
            |
                0 <= k < i ==> (#[trigger] providers[k]).provider != provider,
            None => forall|k: int|
                0 <= k < providers.len() ==> (#[trigger] providers[k]).provider != provider,
        },
    decreases providers.len(),
{
    if providers.len() > 0 && providers[0].provider != provider {
        let rest = providers.drop_first();
        lemma_place_of(rest, provider);
        match place_of(rest, provider) {
            Some(i) => {
                assert(rest[i] == providers[i + 1]);
                assert forall|k: int| 0 <= k < i + 1 implies (#[trigger] providers[k]).provider
                    != provider by {
                    if k > 0 {
                        assert(rest[k - 1] == providers[k]);
                    }
                }
            },
            None => {
                assert forall|k: int| 0 <= k < providers.len() implies (
                #[trigger] providers[k]).provider != provider by {
                    if k > 0 {
                        assert(rest[k - 1] == providers[k]);
                    }
                }
            },
        }
    }
}

/// Where no two entries are for the same provider, a new state goes to
/// the provider's entry and to no other.
pub proof fn lemma_with_state(
    providers: Seq<ConfiguredProvider>,
    provider: WhichProvider,
    state: ProviderState,
)
    requires
        distinct(providers),
    ensures
        with_state(providers, provider, state).len() == providers.len(),
        forall|i: int|
            0 <= i < providers.len() ==> #[trigger] with_state(providers, provider, state)[i] == (
            if providers[i].provider == provider {
                ConfiguredProvider { provider_state: state, ..providers[i] }
            } else {
                providers[i]
            }),
{
    lemma_place_of(providers, provider);
}

/// The states of the providers in the course of a race. After the start
/// was published and then the answers of some enabled providers, each at
/// most once: the provider of every answer shows what it answered, every
/// other enabled provider still searches, and the providers that are not
/// enabled are as they were.
pub proof fn lemma_states_in_race(providers: Seq<ConfiguredProvider>, answers: Seq<Answer>)
    requires
        distinct(providers),
        answering(answers).no_duplicates(),
    ensures
        ({
            let now = after_answers(searching(providers), answers);
            &&& now.len() == providers.len()
            &&& forall|i: int|
                0 <= i < providers.len() ==> (#[trigger] now[i]).provider == providers[i].provider
                    && now[i].enabled == providers[i].enabled
            &&& forall|i: int, k: int|
                0 <= i < providers.len() && 0 <= k < answers.len() && providers[i].provider == (
                #[trigger] answers[k]).provider() ==> (#[trigger] now[i]).provider_state
                    == answer_state(answers[k])
            &&& forall|i: int|
                0 <= i < providers.len() && !answering(answers).contains(providers[i].provider)
                    ==> (#[trigger] now[i]).provider_state == (if providers[i].enabled {
                    ProviderState::Searching
                } else {
                    providers[i].provider_state
                })
        }),
    decreases answers.len(),
{
    let now = after_answers(searching(providers), answers);
    if answers.len() > 0 {
        let earlier = answers.drop_last();
        let last = answers.last();
        assert(answering(earlier) =~= answering(answers).drop_last());
        lemma_states_in_race(providers, earlier);
        let before = after_answers(searching(providers), earlier);
        assert(distinct(before));
        lemma_with_state(before, last.provider(), answer_state(last));
        assert(now == with_state(before, last.provider(), answer_state(last)));
        assert(answering(answers)[answers.len() - 1] == last.provider());
        assert forall|i: int, k: int|
            0 <= i < providers.len() && 0 <= k < answers.len() && providers[i].provider == (
            #[trigger] answers[k]).provider() implies (#[trigger] now[i]).provider_state
            == answer_state(answers[k]) by {
            if k < earlier.len() {
                assert(earlier[k] == answers[k]);
                assert(answering(answers)[k] == answers[k].provider());
                assert(before[i].provider_state == answer_state(earlier[k]));
            }
        }
        assert forall|i: int|
            0 <= i < providers.len() && !answering(answers).contains(
                providers[i].provider,
            ) implies (#[trigger] now[i]).provider_state == (if providers[i].enabled {
            ProviderState::Searching
        } else {
            providers[i].provider_state
        }) by {
            if answering(earlier).contains(providers[i].provider) {
                let j = choose|j: int|
                    0 <= j < earlier.len() && answering(earlier)[j] == providers[i].provider;
                assert(answering(answers)[j] == providers[i].provider);
            }
            assert(before[i].provider_state == (if providers[i].enabled {
                ProviderState::Searching
            } else {
                providers[i].provider_state
            }));
        }
    }
}

/// The states of the providers at the end of a race. The provider of
/// every answer shows what it answered, be it results or an error; every
/// enabled provider that did not answer shows the timeout, and none that
/// answered does; the providers that are not enabled, and were not
/// searching, are as they were. So where all enabled providers answered,
/// none shows the timeout, and where one did not, that one and only that
/// one does.
pub proof fn lemma_states_after_race(providers: Seq<ConfiguredProvider>, answers: Seq<Answer>)
    requires
        distinct(providers),
        answering(answers).no_duplicates(),
        forall|i: int|
            0 <= i < providers.len() && !(#[trigger] providers[i]).enabled
                ==> !(providers[i].provider_state is Searching),
    ensures
        ({
            let end = providers_after(
                after_answers(
                    providers_after(providers, UpdateActionView::SearchStarted),
                    answers,
                ),
                UpdateActionView::SearchFinished,
            );
            &&& end.len() == providers.len()
            &&& forall|i: int, k: int|
                0 <= i < providers.len() && 0 <= k < answers.len() && providers[i].provider == (
                #[trigger] answers[k]).provider() ==> (#[trigger] end[i]).provider_state
                    == answer_state(answers[k]) && !(end[i].provider_state is Timeout)
            &&& forall|i: int|
                0 <= i < providers.len() && providers[i].enabled && !answering(answers).contains(
                    providers[i].provider,
                ) ==> (#[trigger] end[i]).provider_state is Timeout
            &&& forall|i: int|
                0 <= i < providers.len() && !providers[i].enabled && !answering(answers).contains(
                    providers[i].provider,
                ) ==> #[trigger] end[i] == providers[i]
        }),
{
    lemma_states_in_race(providers, answers);
    let now = after_answers(searching(providers), answers);
    let end = timed_out(now);
    assert forall|i: int, k: int|
        0 <= i < providers.len() && 0 <= k < answers.len() && providers[i].provider == (
        #[trigger] answers[k]).provider() implies (#[trigger] end[i]).provider_state
        == answer_state(answers[k]) && !(end[i].provider_state is Timeout) by {
        assert(now[i].provider_state == answer_state(answers[k]));
    }
    assert forall|i: int|
        0 <= i < providers.len() && !providers[i].enabled && !answering(answers).contains(
            providers[i].provider,
        ) implies #[trigger] end[i] == providers[i] by {
        assert(now[i].provider_state == providers[i].provider_state);
        assert(now[i].provider == providers[i].provider);
        assert(searching(providers)[i] == providers[i]);
    }
}

/// What an update does to the providers of the tab is what it does to the
/// providers by themselves.
pub proof fn lemma_update_providers(tab: SearchTabView, update: UpdateActionView)
    ensures
        tab.update(update).providers == providers_after(tab.providers, update),
{
}

} // verus!
