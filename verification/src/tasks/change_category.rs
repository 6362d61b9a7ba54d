//! The category task: it asks for the category to file the torrents under.

use vstd::prelude::*;
use vstd::string::*;
use crate::action::{Action, ComponentAction, KeyCode, KeyEvent};
use crate::component::Step;
use crate::hub::{Hub, HubView};
use crate::input::{InputManager, InputView};
use crate::messages::{
    RpcAction, RpcActionView, StatusTask, StatusTaskKind, StatusTaskView, UpdateAction,
    UpdateActionView,
};
use crate::tasks::add_magnet::category_not_found_prompt;
use crate::tasks::{
    categories_view, find_category, lookup_category, Category, CategoryView, TorrentSelection,
    TorrentSelectionView,
};

verus! {

pub open spec fn new_category_prompt() -> Seq<char> {
    "New category: "@
}

pub struct ChangeCategory {
    pub selection: TorrentSelection,
    pub categories: Vec<Category>,
    pub input_mgr: InputManager,
}

pub struct ChangeCategoryView {
    pub targets: TorrentSelectionView,
    pub categories: Seq<CategoryView>,
    pub input: InputView,
}

impl View for ChangeCategory {
    type V = ChangeCategoryView;

    open spec fn view(&self) -> ChangeCategoryView {
        ChangeCategoryView {
            targets: self.selection@,
            categories: categories_view(self.categories@),
            input: self.input_mgr@,
        }
    }
}

impl ChangeCategoryView {
    /// What the category task does with an action. Enter behind the name of
    /// a category requests the change, announces it and closes; behind any
    /// other name it stays and says so in the prompt. Esc closes; any other
    /// key edits the name, with a redraw if that changed something. No other
    /// action concerns it.
    pub open spec fn handle(self, action: Action, hub: HubView) -> Step<ChangeCategoryView> {
        match action {
            Action::Input(key) => if key.code is Enter {
                if find_category(self.categories, self.input.text) is Some {
                    Step::quit(
                        self,
                        hub.with_request(
                            RpcActionView::ChangeCategory {
                                ids: self.targets.ids(),
                                category: self.input.text,
                            },
                        ).with_update(
                            UpdateActionView::StatusTaskSet(
                                StatusTaskView {
                                    kind: StatusTaskKind::ChangeCategory,
                                    what: self.input.text,
                                },
                            ),
                        ),
                    )
                } else {
                    Step::stay(
                        ChangeCategoryView {
                            input: InputView {
                                prompt: category_not_found_prompt(self.input.text),
                                ..self.input
                            },
                            ..self
                        },
                        hub.with_action(Action::Render),
                    )
                }
            } else if key.code is Esc {
                Step::quit(self, hub)
            } else {
                Step::stay(
                    ChangeCategoryView { input: self.input.after_key(key), ..self },
                    if self.input.changed_by(key) {
                        hub.with_action(Action::Render)
                    } else {
                        hub
                    },
                )
            },
            _ => Step::stay(self, hub),
        }
    }
}

impl ChangeCategory {
    /// A category task for the given torrents.
    pub fn new(selection: TorrentSelection, categories: Vec<Category>) -> (task: ChangeCategory)
        ensures
            task@ == (ChangeCategoryView {
                targets: selection@,
                categories: categories_view(categories@),
                input: InputView::empty(new_category_prompt()),
            }),
    {
        ChangeCategory {
            selection,
            categories,
            input_mgr: InputManager::new(String::from_str("New category: ")),
        }
    }

    pub fn handle_actions(&mut self, action: Action, hub: &mut Hub) -> (result: ComponentAction)
        ensures
            (Step { state: final(self)@, hub: final(hub)@, result }) == old(self)@.handle(
                action,
                old(hub)@,
            ),
    {
        match action {
            Action::Input(input) => {
                if matches!(input.code, KeyCode::Enter) {
                    let name = self.input_mgr.text();
                    match lookup_category(&self.categories, &name) {
                        Some(_) => {
                            let task = StatusTask::new(
                                StatusTaskKind::ChangeCategory,
                                name.clone(),
                            );
                            hub.send_rpc_action(
                                RpcAction::ChangeCategory {
                                    ids: self.selection.ids(),
                                    category: name,
                                },
                            );
                            hub.send_update_action(UpdateAction::StatusTaskSet(task));
                            return ComponentAction::Quit;
                        },
                        None => {
                            let mut prompt = String::from_str("Category (");
                            prompt.append(name.as_str());
                            prompt.append(" not found): ");
                            self.input_mgr.set_prompt(prompt);
                            hub.send_action(Action::Render);
                            return ComponentAction::Nothing;
                        },
                    }
                }
                if matches!(input.code, KeyCode::Esc) {
                    return ComponentAction::Quit;
                }
                if self.input_mgr.handle_key(input) {
                    hub.send_action(Action::Render);
                }
                ComponentAction::Nothing
            },
            _ => ComponentAction::Nothing,
        }
    }
}

} // verus!
