//! The popups of the torrents tab, and the one slot that holds them.

use vstd::prelude::*;
use crate::action::{Action, ComponentAction};
use crate::component::Step;
use crate::hub::{Hub, HubView};
use crate::messages::{
    Command, CommandView, SessionStats, Torrent, TorrentWindow, UpdateAction, UpdateActionView,
};
use crate::torrents::files::{FilesPopup, FilesPopupView};

verus! {

/// What a popup without controls of its own does with an action: a quit,
/// `Close` or Confirm closes it, nothing else concerns it.
pub open spec fn closes_plain_popup(action: Action) -> bool {
    action.is_soft_quit() || action is Confirm
}

/// The details of one torrent.
pub struct DetailsPopup {
    pub torrent: Torrent,
}

impl DetailsPopup {
    pub fn new(torrent: Torrent) -> (popup: DetailsPopup)
        ensures
            popup.torrent == torrent,
    {
        DetailsPopup { torrent }
    }

    pub fn handle_actions(&mut self, action: Action) -> (result: ComponentAction)
        ensures
            *final(self) == *old(self),
            result == (if closes_plain_popup(action) {
                ComponentAction::Quit
            } else {
                ComponentAction::Nothing
            }),
    {
        if action.is_soft_quit() || matches!(action, Action::Confirm) {
            ComponentAction::Quit
        } else {
            ComponentAction::Nothing
        }
    }
}

/// The daemon's transfer totals.
pub struct StatisticsPopup {
    pub stats: SessionStats,
}

impl StatisticsPopup {
    pub fn new(stats: SessionStats) -> (popup: StatisticsPopup)
        ensures
            popup.stats == stats,
    {
        StatisticsPopup { stats }
    }

    pub fn update_stats(&mut self, stats: &SessionStats)
        ensures
            final(self).stats == *stats,
    {
        self.stats = *stats;
    }

    pub fn handle_actions(&mut self, action: Action) -> (result: ComponentAction)
        ensures
            *final(self) == *old(self),
            result == (if closes_plain_popup(action) {
                ComponentAction::Quit
            } else {
                ComponentAction::Nothing
            }),
    {
        if action.is_soft_quit() || matches!(action, Action::Confirm) {
            ComponentAction::Quit
        } else {
            ComponentAction::Nothing
        }
    }
}

pub enum CurrentPopup {
    Stats(StatisticsPopup),
    Files(FilesPopup),
    Details(DetailsPopup),
}

pub enum CurrentPopupView {
    Stats(SessionStats),
    Files(FilesPopupView),
    Details(Torrent),
}

impl View for CurrentPopup {
    type V = CurrentPopupView;

    open spec fn view(&self) -> CurrentPopupView {
        match self {
            CurrentPopup::Stats(p) => CurrentPopupView::Stats(p.stats),
            CurrentPopup::Files(p) => CurrentPopupView::Files(p@),
            CurrentPopup::Details(p) => CurrentPopupView::Details(p.torrent),
        }
    }
}

impl CurrentPopupView {
    /// The token of the background job that the popup owns, if it owns one
    /// that runs.
    pub open spec fn job(self) -> Option<u64> {
        match self {
            CurrentPopupView::Files(p) => p.poller,
            _ => None,
        }
    }
}

impl CurrentPopup {
    pub open spec fn wf(&self) -> bool {
        self matches CurrentPopup::Files(p) ==> p.wf()
    }
}

/// The slot for the one popup that can be on show.
pub struct PopupManager {
    pub current_popup: Option<CurrentPopup>,
}

impl View for PopupManager {
    type V = Option<CurrentPopupView>;

    open spec fn view(&self) -> Option<CurrentPopupView> {
        match self.current_popup {
            Some(p) => Some(p@),
            None => None,
        }
    }
}

/// The hub after the job of the popup in the slot, if it owns one that
/// runs, was aborted.
pub open spec fn released(slot: Option<CurrentPopupView>, hub: HubView) -> HubView {
    match slot {
        Some(p) => match p.job() {
            Some(token) => hub.with_command(CommandView::Abort { token }),
            None => hub,
        },
        None => hub,
    }
}

/// Whether the popup in the slot, if there is one, can take the action.
/// Only the files popup ever cannot.
pub open spec fn slot_admits(slot: Option<CurrentPopupView>, action: Action) -> bool {
    slot matches Some(CurrentPopupView::Files(p)) ==> p.admits(action)
}

/// What the popup in the slot does with an action. The popup gets the
/// action; if it asks to be closed, the slot is emptied and a redraw asked
/// for, and behind a files popup the tab's own key bindings come back into
/// force. An empty slot takes no action.
pub open spec fn slot_handle(slot: Option<CurrentPopupView>, action: Action, hub: HubView) -> Step<
    Option<CurrentPopupView>,
> {
    match slot {
        Some(CurrentPopupView::Files(p)) => {
            let s = p.handle(action, hub);
            if s.result is Quit {
                Step::stay(
                    None,
                    s.hub.with_update(
                        UpdateActionView::ChangeTorrentWindow(TorrentWindow::General),
                    ).with_action(Action::Render),
                )
            } else {
                Step::stay(Some(CurrentPopupView::Files(s.state)), s.hub)
            }
        },
        Some(p) => if closes_plain_popup(action) {
            Step::stay(None, hub.with_action(Action::Render))
        } else {
            Step::stay(slot, hub)
        },
        None => Step::stay(slot, hub),
    }
}

impl PopupManager {
    pub open spec fn wf(&self) -> bool {
        self.current_popup matches Some(p) ==> p.wf()
    }

    /// An empty slot.
    pub fn new() -> (manager: PopupManager)
        ensures
            manager.wf(),
            manager@ is None,
    {
        PopupManager { current_popup: None }
    }

    pub fn is_showing_popup(&self) -> (b: bool)
        ensures
            b == (self@ is Some),
    {
        self.current_popup.is_some()
    }

    /// Puts a popup into the slot. A popup that was there is dropped, and
    /// its background job, if it owns one that runs, is aborted first.
    pub fn show_popup(&mut self, popup: CurrentPopup, hub: &mut Hub)
        requires
            popup.wf(),
        ensures
            final(self).wf(),
            final(self)@ == Some(popup@),
            final(hub)@ == released(old(self)@, old(hub)@),
    {
        self.release(hub);
        self.current_popup = Some(popup);
    }

    fn release(&self, hub: &mut Hub)
        ensures
            final(hub)@ == released(self@, old(hub)@),
    {
        if let Some(CurrentPopup::Files(files)) = &self.current_popup {
            if let Some(token) = files.poller {
                hub.send_command(Command::Abort { token });
            }
        }
    }

    /// Empties the slot. The background job of the popup that was there,
    /// if it owns one that runs, is aborted.
    pub fn close_popup(&mut self, hub: &mut Hub)
        ensures
            final(self).wf(),
            final(self)@ is None,
            final(hub)@ == released(old(self)@, old(hub)@),
    {
        self.release(hub);
        self.current_popup = None;
    }

    /// Whether the popup in the slot, if there is one, can take the action.
    pub fn admits(&self, action: Action) -> (admitted: bool)
        ensures
            admitted == slot_admits(self@, action),
    {
        match &self.current_popup {
            Some(CurrentPopup::Files(popup)) => popup.admits(action),
            _ => true,
        }
    }

    /// Hands one action to the popup in the slot, which has to admit it.
    pub fn handle_actions(&mut self, action: Action, hub: &mut Hub) -> (result: ComponentAction)
        requires
            old(self).wf(),
            slot_admits(old(self)@, action),
        ensures
            final(self).wf(),
            (Step { state: final(self)@, hub: final(hub)@, result }) == slot_handle(
                old(self)@,
                action,
                old(hub)@,
            ),
    {
        let mut closed_files = false;
        let should_close = match &mut self.current_popup {
            Some(CurrentPopup::Stats(popup)) => popup.handle_actions(action).is_quit(),
            Some(CurrentPopup::Files(popup)) => {
                closed_files = popup.handle_actions(action, hub).is_quit();
                closed_files
            },
            Some(CurrentPopup::Details(popup)) => popup.handle_actions(action).is_quit(),
            None => false,
        };
        if should_close {
            self.current_popup = None;
            if closed_files {
                hub.send_update_action(
                    UpdateAction::ChangeTorrentWindow(TorrentWindow::General),
                );
            }
            hub.send_action(Action::Render);
        }
        ComponentAction::Nothing
    }

    /// Hands an update to the files popup, if that is on show.
    pub fn handle_update_action(&mut self, action: UpdateAction)
        requires
            old(self).wf(),
        ensures
            final(self).wf(),
            refreshed(*old(self), *final(self), action),
    {
        if let Some(CurrentPopup::Files(popup)) = &mut self.current_popup {
            popup.handle_update_action(action);
        }
    }
}

/// What an update does to the slot. Fresh metadata that the files popup on
/// show accepts replaces what it knew of its torrent: its tree holds every
/// file of the metadata, and all else about the popup is as before. Any
/// other update, and any update without a files popup on show, changes
/// nothing.
pub open spec fn refreshed(before: PopupManager, after: PopupManager, action: UpdateAction) -> bool {
    match (before.current_popup, action) {
        (
            Some(CurrentPopup::Files(old_popup)),
            UpdateAction::UpdateCurrentTorrent(torrent),
        ) => if old_popup@.accepts(&torrent) {
            &&& after.current_popup matches Some(CurrentPopup::Files(popup))
            &&& popup.torrent == Some(torrent)
            &&& popup@.items.len() == torrent.files@.len()
            &&& forall|f: int| 0 <= f < torrent.files@.len() ==> popup.tree.holds(&torrent, f)
            &&& forall|d: int| 1 <= d < popup.tree.directories@.len() ==> popup.tree.in_use(d)
            &&& popup@ == (FilesPopupView {
                torrent: Some(torrent),
                directories: popup@.directories,
                items: popup@.items,
                ..old_popup@
            })
        } else {
            after == before
        },
        _ => after == before,
    }
}

} // verus!
