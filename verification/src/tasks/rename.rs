//! The rename task: it asks for the new name of one torrent.

use vstd::prelude::*;
use vstd::string::*;
use crate::action::{Action, ComponentAction, KeyCode, KeyEvent};
use crate::component::Step;
use crate::hub::{Hub, HubView};
use crate::input::{InputManager, InputView};
use crate::messages::{
    RpcAction, RpcActionView, StatusTask, StatusTaskKind, StatusTaskView, UpdateAction,
    UpdateActionView,
};

verus! {

pub open spec fn rename_prompt() -> Seq<char> {
    "New name: "@
}

pub struct Rename {
    pub id: i64,
    pub curr_name: String,
    pub input_mgr: InputManager,
}

pub struct RenameView {
    pub id: i64,
    pub curr_name: Seq<char>,
    pub input: InputView,
}

impl View for Rename {
    type V = RenameView;

    open spec fn view(&self) -> RenameView {
        RenameView { id: self.id, curr_name: self.curr_name@, input: self.input_mgr@ }
    }
}

impl RenameView {
    /// What the rename task does with an action. Enter closes it; if the
    /// name entered differs from the current one, the rename is requested
    /// and announced first. Esc closes; any other key edits the name, with a
    /// redraw if that changed something. No other action concerns it.
    pub open spec fn handle(self, action: Action, hub: HubView) -> Step<RenameView> {
        match action {
            Action::Input(key) => if key.code is Enter {
                Step::quit(
                    self,
                    if self.input.text == self.curr_name {
                        hub
                    } else {
                        hub.with_request(
                            RpcActionView::Rename {
                                id: self.id,
                                current_name: self.curr_name,
                                new_name: self.input.text,
                            },
                        ).with_update(
                            UpdateActionView::StatusTaskSet(
                                StatusTaskView {
                                    kind: StatusTaskKind::Rename,
                                    what: self.curr_name,
                                },
                            ),
                        )
                    },
                )
            } else if key.code is Esc {
                Step::quit(self, hub)
            } else {
                Step::stay(
                    RenameView { input: self.input.after_key(key), ..self },
                    if self.input.changed_by(key) {
                        hub.with_action(Action::Render)
                    } else {
                        hub
                    },
                )
            },
            _ => Step::stay(self, hub),
        }
    }
}

impl Rename {
    /// A rename task for the torrent `id`, which offers its current name.
    pub fn new(id: i64, curr_name: String) -> (task: Rename)
        ensures
            task@ == (RenameView {
                id,
                curr_name: curr_name@,
                input: InputView::holding(rename_prompt(), curr_name@),
            }),
    {
        let offered = curr_name.clone();
        Rename {
            id,
            curr_name,
            input_mgr: InputManager::new_with_value(String::from_str("New name: "), offered),
        }
    }

    pub fn handle_actions(&mut self, action: Action, hub: &mut Hub) -> (result: ComponentAction)
        ensures
            (Step { state: final(self)@, hub: final(hub)@, result }) == old(self)@.handle(
                action,
                old(hub)@,
            ),
    {
        match action {
            Action::Input(input) => {
                if matches!(input.code, KeyCode::Enter) {
                    let new_name = self.input_mgr.text();
                    if new_name != self.curr_name {
                        hub.send_rpc_action(
                            RpcAction::Rename {
                                id: self.id,
                                current_name: self.curr_name.clone(),
                                new_name,
                            },
                        );
                        let task = StatusTask::new(StatusTaskKind::Rename, self.curr_name.clone());
                        hub.send_update_action(UpdateAction::StatusTaskSet(task));
                    }
                    return ComponentAction::Quit;
                }
                if matches!(input.code, KeyCode::Esc) {
                    return ComponentAction::Quit;
                }
                if self.input_mgr.handle_key(input) {
                    hub.send_action(Action::Render);
                }
                ComponentAction::Nothing
            },
            _ => ComponentAction::Nothing,
        }
    }
}

} // verus!
