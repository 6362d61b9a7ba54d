//! The move task: it asks for the directory to move the data to.

use vstd::prelude::*;
use vstd::string::*;
use crate::action::{Action, ComponentAction, KeyCode, KeyEvent};
use crate::component::Step;
use crate::hub::{Hub, HubView};
use crate::input::{InputManager, InputView};
use crate::messages::{
    RpcAction, RpcActionView, StatusTask, StatusTaskKind, StatusTaskView, UpdateAction,
    UpdateActionView,
};
use crate::tasks::{TorrentSelection, TorrentSelectionView};

verus! {

pub open spec fn move_prompt() -> Seq<char> {
    "New directory: "@
}

pub struct Move {
    pub selection: TorrentSelection,
    pub input_mgr: InputManager,
}

pub struct MoveView {
    pub targets: TorrentSelectionView,
    pub input: InputView,
}

impl View for Move {
    type V = MoveView;

    open spec fn view(&self) -> MoveView {
        MoveView { targets: self.selection@, input: self.input_mgr@ }
    }
}

impl MoveView {
    /// What the move task does with an action. Enter requests the move to
    /// the directory entered, announces it and closes; Esc closes; any other
    /// key edits the directory, with a redraw if that changed something. No
    /// other action concerns it.
    pub open spec fn handle(self, action: Action, hub: HubView) -> Step<MoveView> {
        match action {
            Action::Input(key) => if key.code is Enter {
                Step::quit(
                    self,
                    hub.with_request(
                        RpcActionView::Move { ids: self.targets.ids(), directory: self.input.text },
                    ).with_update(
                        UpdateActionView::StatusTaskSet(
                            StatusTaskView { kind: StatusTaskKind::Move, what: self.input.text },
                        ),
                    ),
                )
            } else if key.code is Esc {
                Step::quit(self, hub)
            } else {
                Step::stay(
                    MoveView { input: self.input.after_key(key), ..self },
                    if self.input.changed_by(key) {
                        hub.with_action(Action::Render)
                    } else {
                        hub
                    },
                )
            },
            _ => Step::stay(self, hub),
        }
    }
}

impl Move {
    /// A move task for the given torrents that offers `existing_location`.
    pub fn new(selection: TorrentSelection, existing_location: String) -> (task: Move)
        ensures
            task@ == (MoveView {
                targets: selection@,
                input: InputView::holding(move_prompt(), existing_location@),
            }),
    {
        Move {
            selection,
            input_mgr: InputManager::new_with_value(
                String::from_str("New directory: "),
                existing_location,
            ),
        }
    }

    pub fn handle_actions(&mut self, action: Action, hub: &mut Hub) -> (result: ComponentAction)
        ensures
            (Step { state: final(self)@, hub: final(hub)@, result }) == old(self)@.handle(
                action,
                old(hub)@,
            ),
    {
        match action {
            Action::Input(input) => {
                if matches!(input.code, KeyCode::Enter) {
                    let directory = self.input_mgr.text();
                    let task = StatusTask::new_move(directory.clone());
                    hub.send_rpc_action(RpcAction::Move { ids: self.selection.ids(), directory });
                    hub.send_update_action(UpdateAction::StatusTaskSet(task));
                    return ComponentAction::Quit;
                }
                if matches!(input.code, KeyCode::Esc) {
                    return ComponentAction::Quit;
                }
                if self.input_mgr.handle_key(input) {
                    hub.send_action(Action::Render);
                }
                ComponentAction::Nothing
            },
            _ => ComponentAction::Nothing,
        }
    }
}

} // verus!
