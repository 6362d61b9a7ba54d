//! The bottom line of the search tab: how the search is going, or the
//! add-magnet wizard for the result that was picked.

use vstd::prelude::*;
use crate::action::{Action, ComponentAction};
use crate::component::Step;
use crate::hub::{Hub, HubView};
use crate::messages::{UpdateAction, UpdateActionView};
use crate::search::{ConfiguredProvider, ProviderState};
use crate::tasks::add_magnet::{AddMagnet, AddMagnetView};
use crate::tasks::{categories_view, copy_categories, Category, CategoryView};
use crate::input::InputView;

verus! {

/// How far the search has come.
#[derive(Clone, Copy, Debug, PartialEq, Eq, Structural)]
pub enum SearchStage {
    Nothing,
    Searching,
    NotFound,
    Found(usize),
}

/// The stage of the search, and how many of the enabled providers are
/// through with it.
#[derive(Clone, Copy, Debug, PartialEq, Eq, Structural)]
pub struct SearchState {
    pub stage: SearchStage,
    pub finished: usize,
    pub enabled: usize,
}

/// How many of the providers are enabled.
pub open spec fn count_enabled(providers: Seq<ConfiguredProvider>) -> nat
    decreases providers.len(),
{
    if providers.len() == 0 {
        0
    } else {
        count_enabled(providers.drop_last()) + (if providers.last().enabled {
            1nat
        } else {
            0nat
        })
    }
}

/// How many of the providers are enabled and through: with results, with
/// an error, or timed out.
pub open spec fn count_finished(providers: Seq<ConfiguredProvider>) -> nat
    decreases providers.len(),
{
    if providers.len() == 0 {
        0
    } else {
        count_finished(providers.drop_last()) + (if providers.last().enabled
            && !(providers.last().provider_state is Idle) && !(providers.last().provider_state
            is Searching) {
            1nat
        } else {
            0nat
        })
    }
}

/// Neither count exceeds the number of providers.
pub proof fn lemma_counts_bounded(providers: Seq<ConfiguredProvider>)
    ensures
        count_enabled(providers) <= providers.len(),
        count_finished(providers) <= providers.len(),
    decreases providers.len(),
{
    if providers.len() > 0 {
        lemma_counts_bounded(providers.drop_last());
    }
}

impl SearchState {
    /// The state before any search.
    pub fn new() -> (state: SearchState)
        ensures
            state == (SearchState { stage: SearchStage::Nothing, finished: 0, enabled: 0 }),
    {
        SearchState { stage: SearchStage::Nothing, finished: 0, enabled: 0 }
    }

    /// Counts the providers anew.
    pub fn update_counts(&mut self, providers: &Vec<ConfiguredProvider>)
        ensures
            *final(self) == (SearchState {
                finished: count_finished(providers@) as usize,
                enabled: count_enabled(providers@) as usize,
                ..*old(self)
            }),
    {
        let mut enabled: usize = 0;
        let mut finished: usize = 0;
        let mut i: usize = 0;
        assert(providers@.take(0) =~= Seq::<ConfiguredProvider>::empty());
        while i < providers.len()
            invariant
                0 <= i <= providers@.len(),
                enabled == count_enabled(providers@.take(i as int)),
                finished == count_finished(providers@.take(i as int)),
            decreases providers@.len() - i,
        {
            proof {
                assert(providers@.take(i + 1).drop_last() =~= providers@.take(i as int));
                assert(providers@.take(i + 1).last() == providers@[i as int]);
                lemma_counts_bounded(providers@.take(i as int));
            }
            let p = &providers[i];
            if p.enabled {
                enabled = enabled + 1;
                if !matches!(p.provider_state, ProviderState::Idle | ProviderState::Searching) {
                    finished = finished + 1;
                }
            }
            i = i + 1;
        }
        assert(providers@.take(providers@.len() as int) =~= providers@);
        self.enabled = enabled;
        self.finished = finished;
    }

    pub fn searching(&mut self)
        ensures
            *final(self) == (SearchState { stage: SearchStage::Searching, ..*old(self) }),
    {
        self.stage = SearchStage::Searching;
    }

    pub fn not_found(&mut self)
        ensures
            *final(self) == (SearchState { stage: SearchStage::NotFound, ..*old(self) }),
    {
        self.stage = SearchStage::NotFound;
    }

    pub fn found(&mut self, count: usize)
        ensures
            *final(self) == (SearchState { stage: SearchStage::Found(count), ..*old(self) }),
    {
        self.stage = SearchStage::Found(count);
    }
}

pub struct BottomBar {
    pub search_state: SearchState,
    /// The wizard, while a result is being added.
    pub task: Option<AddMagnet>,
    pub categories: Vec<Category>,
    /// The directory that the wizard offers.
    pub download_dir: String,
}

pub struct BottomBarView {
    pub search_state: SearchState,
    pub task: Option<AddMagnetView>,
    pub categories: Seq<CategoryView>,
    pub download_dir: Seq<char>,
}

impl View for BottomBar {
    type V = BottomBarView;

    open spec fn view(&self) -> BottomBarView {
        BottomBarView {
            search_state: self.search_state,
            task: match self.task {
                Some(t) => Some(t@),
                None => None,
            },
            categories: categories_view(self.categories@),
            download_dir: self.download_dir@,
        }
    }
}

impl BottomBarView {
    /// The wizard opens with the magnet link filled in, and the keyboard
    /// goes to input mode.
    pub open spec fn add_magnet(self, magnet: Seq<char>, hub: HubView) -> (BottomBarView, HubView) {
        let start = AddMagnetView::start(self.categories, self.download_dir);
        (
            BottomBarView {
                task: Some(
                    AddMagnetView {
                        magnet: InputView::holding(start.magnet.prompt, magnet),
                        stage: start.stage_after_magnet(),
                        ..start
                    },
                ),
                ..self
            },
            hub.with_update(UpdateActionView::SwitchToInputMode),
        )
    }

    /// An action goes to the wizard, if it is open. When the wizard asks
    /// to be closed, it is, and the keyboard goes back to normal mode.
    pub open spec fn handle(self, action: Action, hub: HubView) -> (BottomBarView, HubView) {
        match self.task {
            Some(task) => {
                let s = task.handle(action, hub);
                if s.result is Quit {
                    (
                        BottomBarView { task: None, ..self },
                        s.hub.with_update(UpdateActionView::SwitchToNormalMode),
                    )
                } else {
                    (BottomBarView { task: Some(s.state), ..self }, s.hub)
                }
            },
            None => (self, hub),
        }
    }
}

impl BottomBar {
    pub fn new(
        providers: &Vec<ConfiguredProvider>,
        categories: Vec<Category>,
        download_dir: String,
    ) -> (bar: BottomBar)
        ensures
            bar@ == (BottomBarView {
                search_state: SearchState {
                    stage: SearchStage::Nothing,
                    finished: count_finished(providers@) as usize,
                    enabled: count_enabled(providers@) as usize,
                },
                task: None,
                categories: categories_view(categories@),
                download_dir: download_dir@,
            }),
    {
        let mut search_state = SearchState::new();
        search_state.update_counts(providers);
        BottomBar { search_state, task: None, categories, download_dir }
    }

    /// Takes over the daemon's download directory.
    pub fn set_download_dir(&mut self, download_dir: String)
        ensures
            final(self)@ == (BottomBarView { download_dir: download_dir@, ..old(self)@ }),
    {
        self.download_dir = download_dir;
    }

    /// Whether the wizard is open and wants the key presses.
    pub fn requires_input(&self) -> (b: bool)
        ensures
            b == (self@.task is Some),
    {
        self.task.is_some()
    }

    /// Opens the wizard for the given magnet link.
    pub fn add_magnet(&mut self, magnet: String, hub: &mut Hub)
        ensures
            (final(self)@, final(hub)@) == old(self)@.add_magnet(magnet@, old(hub)@),
    {
        let categories = copy_categories(&self.categories);
        let task = AddMagnet::new(categories, self.download_dir.clone()).magnet(magnet);
        self.task = Some(task);
        hub.send_update_action(UpdateAction::SwitchToInputMode);
    }

    pub fn handle_actions(&mut self, action: Action, hub: &mut Hub)
        ensures
            (final(self)@, final(hub)@) == old(self)@.handle(action, old(hub)@),
    {
        if let Some(task) = &mut self.task {
            if task.handle_actions(action, hub).is_quit() {
                self.task = None;
                hub.send_update_action(UpdateAction::SwitchToNormalMode);
            }
        }
    }
}

} // verus!
