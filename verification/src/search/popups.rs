//! The popup of the search tab, and the one slot that holds it.

use vstd::prelude::*;
use crate::action::{Action, ComponentAction};
use crate::component::Step;
use crate::hub::{Hub, HubView};
use crate::search::ConfiguredProvider;

verus! {

/// The list of providers with what each of them is doing.
pub struct ProvidersPopup {
    pub providers: Vec<ConfiguredProvider>,
}

impl ProvidersPopup {
    pub fn new(providers: Vec<ConfiguredProvider>) -> (popup: ProvidersPopup)
        ensures
            popup.providers == providers,
    {
        ProvidersPopup { providers }
    }

    pub fn update_providers(&mut self, providers: Vec<ConfiguredProvider>)
        ensures
            final(self).providers == providers,
    {
        self.providers = providers;
    }

    /// A quit, `Close` or Confirm closes the popup; nothing else concerns
    /// it.
    pub fn handle_actions(&mut self, action: Action) -> (result: ComponentAction)
        ensures
            *final(self) == *old(self),
            result == (if action.is_soft_quit() || action is Confirm {
                ComponentAction::Quit
            } else {
                ComponentAction::Nothing
            }),
    {
        if action.is_soft_quit() || matches!(action, Action::Confirm) {
            ComponentAction::Quit
        } else {
            ComponentAction::Nothing
        }
    }
}

pub enum CurrentPopup {
    Providers(ProvidersPopup),
}

/// The slot for the one popup that can be on show.
pub struct PopupManager {
    pub current_popup: Option<CurrentPopup>,
}

impl View for PopupManager {
    type V = Option<Seq<ConfiguredProvider>>;

    open spec fn view(&self) -> Option<Seq<ConfiguredProvider>> {
        match self.current_popup {
            Some(CurrentPopup::Providers(p)) => Some(p.providers@),
            None => None,
        }
    }
}

/// What the popup in the slot does with an action: if the action closes
/// it, the slot is emptied and a redraw asked for. An empty slot takes no
/// action.
pub open spec fn slot_handle(slot: Option<Seq<ConfiguredProvider>>, action: Action, hub: HubView)
    -> Step<Option<Seq<ConfiguredProvider>>> {
    if slot is Some && (action.is_soft_quit() || action is Confirm) {
        Step::stay(None, hub.with_action(Action::Render))
    } else {
        Step::stay(slot, hub)
    }
}

impl PopupManager {
    /// An empty slot.
    pub fn new() -> (manager: PopupManager)
        ensures
            manager@ is None,
    {
        PopupManager { current_popup: None }
    }

    pub fn is_showing_popup(&self) -> (b: bool)
        ensures
            b == (self@ is Some),
    {
        self.current_popup.is_some()
    }

    fn show_popup(&mut self, popup: CurrentPopup)
        ensures
            final(self).current_popup == Some(popup),
    {
        self.current_popup = Some(popup);
    }

    /// Puts the providers popup into the slot, in place of whatever was
    /// there.
    pub fn show_providers_info_popup(&mut self, providers: Vec<ConfiguredProvider>)
        ensures
            final(self)@ == Some(providers@),
    {
        self.show_popup(CurrentPopup::Providers(ProvidersPopup::new(providers)));
    }

    /// Empties the slot.
    pub fn close_popup(&mut self)
        ensures
            final(self)@ is None,
    {
        self.current_popup = None;
    }

    /// Hands one action to the popup in the slot.
    pub fn handle_actions(&mut self, action: Action, hub: &mut Hub) -> (result: ComponentAction)
        ensures
            (Step { state: final(self)@, hub: final(hub)@, result }) == slot_handle(
                old(self)@,
                action,
                old(hub)@,
            ),
    {
        if let Some(current_popup) = &mut self.current_popup {
            match current_popup {
                CurrentPopup::Providers(popup) => {
                    if popup.handle_actions(action).is_quit() {
                        self.close_popup();
                        hub.send_action(Action::Render);
                    }
                },
            }
        }
        ComponentAction::Nothing
    }
}

} // verus!
