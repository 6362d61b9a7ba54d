//! The delete confirmation: it asks whether the files go too.

use vstd::prelude::*;
use vstd::string::*;
use crate::action::{Action, ComponentAction, KeyCode, KeyEvent};
use crate::component::Step;
use crate::hub::{Hub, HubView};
use crate::input::{InputManager, InputView};
use crate::messages::{
    RpcAction, RpcActionView, StatusTask, StatusTaskKind, StatusTaskView, UpdateAction,
    UpdateActionView,
};
use crate::tasks::{text_is, TorrentSelection, TorrentSelectionView};

verus! {

pub open spec fn delete_prompt() -> Seq<char> {
    "Delete selected with files? (Y/n) "@
}

/// The answers that delete the files too; no answer at all is one of them.
pub open spec fn says_yes(text: Seq<char>) -> bool {
    text.len() == 0 || text == "y"@ || text == "Y"@ || text == "yes"@ || text == "Yes"@ || text
        == "YES"@
}

/// The answers that keep the files.
pub open spec fn says_no(text: Seq<char>) -> bool {
    text == "n"@ || text == "N"@ || text == "no"@ || text == "No"@ || text == "NO"@
}

pub struct Delete {
    pub delete_with_files: bool,
    pub torrents_to_delete: TorrentSelection,
    pub input_mgr: InputManager,
}

pub struct DeleteView {
    pub delete_with_files: bool,
    pub targets: TorrentSelectionView,
    pub input: InputView,
}

impl View for Delete {
    type V = DeleteView;

    open spec fn view(&self) -> DeleteView {
        DeleteView {
            delete_with_files: self.delete_with_files,
            targets: self.torrents_to_delete@,
            input: self.input_mgr@,
        }
    }
}

impl DeleteView {
    /// The hub after the deletion was requested and announced.
    pub open spec fn deleted(self, with_files: bool, hub: HubView) -> HubView {
        hub.with_request(RpcActionView::Delete { ids: self.targets.ids(), with_files }).with_update(
            UpdateActionView::StatusTaskSet(
                StatusTaskView { kind: StatusTaskKind::Delete, what: self.targets.label() },
            ),
        )
    }

    /// What the confirmation does with an action. Esc closes it and deletes
    /// nothing. Enter behind a yes deletes the torrents with their files,
    /// behind a no without them, and closes; behind anything else it is a
    /// key like any other: handed to the entry field, with a redraw if that
    /// changed something. No other action concerns it.
    pub open spec fn handle(self, action: Action, hub: HubView) -> Step<DeleteView> {
        match action {
            Action::Input(key) => if key.code is Esc {
                Step::quit(self, hub)
            } else if key.code is Enter && says_yes(self.input.text) {
                Step::quit(DeleteView { delete_with_files: true, ..self }, self.deleted(true, hub))
            } else if key.code is Enter && says_no(self.input.text) {
                Step::quit(self, self.deleted(self.delete_with_files, hub))
            } else {
                Step::stay(
                    DeleteView { input: self.input.after_key(key), ..self },
                    if self.input.changed_by(key) {
                        hub.with_action(Action::Render)
                    } else {
                        hub
                    },
                )
            },
            _ => Step::stay(self, hub),
        }
    }
}

impl Delete {
    /// A confirmation for the given torrents. Unless the answer says
    /// otherwise, files are deleted only if `delete_with_files` is set.
    pub fn new(to_delete: TorrentSelection, delete_with_files: bool) -> (task: Delete)
        ensures
            task@ == (DeleteView {
                delete_with_files,
                targets: to_delete@,
                input: InputView::empty(delete_prompt()),
            }),
    {
        Delete {
            delete_with_files,
            torrents_to_delete: to_delete,
            input_mgr: InputManager::new(String::from_str("Delete selected with files? (Y/n) ")),
        }
    }

    fn delete(&self, hub: &mut Hub)
        ensures
            final(hub)@ == self@.deleted(self.delete_with_files, old(hub)@),
    {
        hub.send_rpc_action(
            RpcAction::Delete {
                ids: self.torrents_to_delete.ids(),
                with_files: self.delete_with_files,
            },
        );
        let task = StatusTask::new_delete(self.torrents_to_delete.label());
        hub.send_update_action(UpdateAction::StatusTaskSet(task));
    }

    pub fn handle_actions(&mut self, action: Action, hub: &mut Hub) -> (result: ComponentAction)
        ensures
            (Step { state: final(self)@, hub: final(hub)@, result }) == old(self)@.handle(
                action,
                old(hub)@,
            ),
    {
        match action {
            Action::Input(input) => {
                if matches!(input.code, KeyCode::Esc) {
                    return ComponentAction::Quit;
                }
                if matches!(input.code, KeyCode::Enter) {
                    let text = self.input_mgr.text();
                    if text.as_str().unicode_len() == 0 || text_is(&text, "y") || text_is(
                        &text,
                        "Y",
                    ) || text_is(&text, "yes") || text_is(&text, "Yes") || text_is(&text, "YES") {
                        self.delete_with_files = true;
                        self.delete(hub);
                        return ComponentAction::Quit;
                    } else if text_is(&text, "n") || text_is(&text, "N") || text_is(&text, "no")
                        || text_is(&text, "No") || text_is(&text, "NO") {
                        self.delete(hub);
                        return ComponentAction::Quit;
                    }
                }
                if self.input_mgr.handle_key(input) {
                    hub.send_action(Action::Render);
                }
                ComponentAction::Nothing
            },
            _ => ComponentAction::Nothing,
        }
    }
}

} // verus!
