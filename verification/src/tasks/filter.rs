//! The filter box: every edit narrows the torrent list at once.

use vstd::prelude::*;
use vstd::string::*;
use crate::action::{Action, ComponentAction, KeyCode, KeyEvent};
use crate::component::Step;
use crate::hub::{Hub, HubView};
use crate::input::{InputManager, InputView};
use crate::messages::{UpdateAction, UpdateActionView};

verus! {

pub open spec fn filter_prompt() -> Seq<char> {
    "Search: "@
}

pub struct Filter {
    pub input: InputManager,
}

impl View for Filter {
    type V = InputView;

    open spec fn view(&self) -> InputView {
        self.input@
    }
}

/// The characters of the pattern that the box starts with.
pub open spec fn pattern_text(pattern: Option<String>) -> Seq<char> {
    match pattern {
        Some(p) => p@,
        None => Seq::empty(),
    }
}

/// What the filter box does with an action. Enter and Esc close it, and
/// clear the filter if the box is empty. Any other key edits the pattern,
/// and an edit that changed something applies the pattern as it then is.
/// No other action concerns it.
pub open spec fn filter_handle(input: InputView, action: Action, hub: HubView) -> Step<InputView> {
    match action {
        Action::Input(key) => if key.code is Enter || key.code is Esc {
            Step::quit(
                input,
                if input.text.len() == 0 {
                    hub.with_update(UpdateActionView::SearchFilterClear)
                } else {
                    hub
                },
            )
        } else {
            Step::stay(
                input.after_key(key),
                if input.changed_by(key) {
                    hub.with_update(UpdateActionView::SearchFilterApply(input.after_key(key).text))
                } else {
                    hub
                },
            )
        },
        _ => Step::stay(input, hub),
    }
}

impl Filter {
    /// A filter box that holds the pattern in force, if there is one.
    pub fn new(current_pattern: &Option<String>) -> (task: Filter)
        ensures
            task@ == InputView::holding(filter_prompt(), pattern_text(*current_pattern)),
    {
        let pattern = match current_pattern {
            Some(p) => p.clone(),
            None => String::new(),
        };
        let input = InputManager::new_with_value(String::from_str("Search: "), pattern);
        Filter { input }
    }

    pub fn handle_actions(&mut self, action: Action, hub: &mut Hub) -> (result: ComponentAction)
        ensures
            (Step { state: final(self)@, hub: final(hub)@, result }) == filter_handle(
                old(self)@,
                action,
                old(hub)@,
            ),
    {
        match action {
            Action::Input(input) => {
                if matches!(input.code, KeyCode::Enter | KeyCode::Esc) {
                    if self.input.text().as_str().unicode_len() == 0 {
                        hub.send_update_action(UpdateAction::SearchFilterClear);
                    }
                    ComponentAction::Quit
                } else if self.input.handle_key(input) {
                    hub.send_update_action(UpdateAction::SearchFilterApply(self.input.text()));
                    ComponentAction::Nothing
                } else {
                    ComponentAction::Nothing
                }
            },
            _ => ComponentAction::Nothing,
        }
    }
}

} // verus!
