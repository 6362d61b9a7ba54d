//! The add-magnet wizard: the magnet link, then the category (if any are
//! configured), then the download directory.

use vstd::prelude::*;
use vstd::string::*;
use crate::action::{Action, ComponentAction, KeyCode, KeyEvent};
use crate::component::Step;
use crate::hub::{Hub, HubView};
use crate::input::{InputManager, InputView};
use crate::messages::{
    RpcAction, RpcActionView, StatusTask, StatusTaskKind, StatusTaskView, UpdateAction,
    UpdateActionView,
};
use crate::tasks::{categories_view, find_category, lookup_category, Category, CategoryView};

verus! {

/// Which question the wizard is at.
#[derive(Clone, Copy, Debug, PartialEq, Eq, Structural)]
pub enum Stage {
    Magnet,
    Category,
    Location,
}

pub open spec fn magnet_prompt() -> Seq<char> {
    "Add magnet URI: "@
}

pub open spec fn category_prompt() -> Seq<char> {
    "Category (empty for default): "@
}

pub open spec fn location_prompt() -> Seq<char> {
    "Directory: "@
}

/// The category prompt after a name that no category has was entered.
pub open spec fn category_not_found_prompt(name: Seq<char>) -> Seq<char> {
    "Category ("@ + name + " not found): "@
}

pub struct AddMagnet {
    pub input_magnet_mgr: InputManager,
    pub input_category_mgr: InputManager,
    pub input_location_mgr: InputManager,
    pub stage: Stage,
    pub categories: Vec<Category>,
}

pub struct AddMagnetView {
    pub magnet: InputView,
    pub category: InputView,
    pub location: InputView,
    pub stage: Stage,
    pub categories: Seq<CategoryView>,
}

impl View for AddMagnet {
    type V = AddMagnetView;

    open spec fn view(&self) -> AddMagnetView {
        AddMagnetView {
            magnet: self.input_magnet_mgr@,
            category: self.input_category_mgr@,
            location: self.input_location_mgr@,
            stage: self.stage,
            categories: categories_view(self.categories@),
        }
    }
}

impl AddMagnetView {
    /// The wizard as it starts: all fields empty but the directory, which
    /// holds the daemon's download directory.
    pub open spec fn start(categories: Seq<CategoryView>, download_dir: Seq<char>) -> AddMagnetView {
        AddMagnetView {
            magnet: InputView::empty(magnet_prompt()),
            category: InputView::empty(category_prompt()),
            location: InputView::holding(location_prompt(), download_dir),
            stage: Stage::Magnet,
            categories,
        }
    }

    /// The question behind the magnet link: the category, unless none is
    /// configured.
    pub open spec fn stage_after_magnet(self) -> Stage {
        if self.categories.len() == 0 {
            Stage::Location
        } else {
            Stage::Category
        }
    }

    /// A key press while the magnet link is asked for: Enter goes on to the
    /// next question, Esc gives up, any other key edits the link.
    pub open spec fn on_magnet_key(self, key: KeyEvent, hub: HubView) -> Step<AddMagnetView> {
        if key.code is Enter {
            Step::stay(
                AddMagnetView { stage: self.stage_after_magnet(), ..self },
                hub.with_action(Action::Render),
            )
        } else if key.code is Esc {
            Step::quit(self, hub)
        } else {
            Step::stay(
                AddMagnetView { magnet: self.magnet.after_key(key), ..self },
                if self.magnet.changed_by(key) {
                    hub.with_action(Action::Render)
                } else {
                    hub
                },
            )
        }
    }

    /// A key press while the category is asked for. Enter with no name goes
    /// on with the directory as it is; with the name of a category it goes
    /// on with that category's directory; with any other name it stays and
    /// says so in the prompt. Esc gives up, any other key edits the name.
    pub open spec fn on_category_key(self, key: KeyEvent, hub: HubView) -> Step<AddMagnetView> {
        if key.code is Enter {
            if self.category.text.len() == 0 {
                Step::stay(
                    AddMagnetView { stage: Stage::Location, ..self },
                    hub.with_action(Action::Render),
                )
            } else {
                match find_category(self.categories, self.category.text) {
                    Some(i) => Step::stay(
                        AddMagnetView {
                            location: InputView::holding(
                                location_prompt(),
                                self.categories[i].default_dir,
                            ),
                            stage: Stage::Location,
                            ..self
                        },
                        hub.with_action(Action::Render),
                    ),
                    None => Step::stay(
                        AddMagnetView {
                            category: InputView {
                                prompt: category_not_found_prompt(self.category.text),
                                ..self.category
                            },
                            ..self
                        },
                        hub.with_action(Action::Render),
                    ),
                }
            }
        } else if key.code is Esc {
            Step::quit(self, hub)
        } else {
            Step::stay(
                AddMagnetView { category: self.category.after_key(key), ..self },
                if self.category.changed_by(key) {
                    hub.with_action(Action::Render)
                } else {
                    hub
                },
            )
        }
    }

    /// The request that the finished wizard sends to the daemon.
    pub open spec fn request(self) -> RpcActionView {
        RpcActionView::Add {
            magnet: self.magnet.text,
            directory: Some(self.location.text),
            category: if self.category.text.len() == 0 {
                None
            } else {
                Some(self.category.text)
            },
        }
    }

    /// A key press while the directory is asked for: Enter sends the request
    /// and announces it in the status line, then the wizard is done; Esc
    /// gives up; any other key edits the directory.
    pub open spec fn on_location_key(self, key: KeyEvent, hub: HubView) -> Step<AddMagnetView> {
        if key.code is Enter {
            Step::quit(
                self,
                hub.with_request(self.request()).with_update(
                    UpdateActionView::StatusTaskSet(
                        StatusTaskView { kind: StatusTaskKind::Add, what: self.magnet.text },
                    ),
                ),
            )
        } else if key.code is Esc {
            Step::quit(self, hub)
        } else {
            Step::stay(
                AddMagnetView { location: self.location.after_key(key), ..self },
                if self.location.changed_by(key) {
                    hub.with_action(Action::Render)
                } else {
                    hub
                },
            )
        }
    }

    /// A key press goes to the question that the wizard is at.
    pub open spec fn on_key(self, key: KeyEvent, hub: HubView) -> Step<AddMagnetView> {
        match self.stage {
            Stage::Magnet => self.on_magnet_key(key, hub),
            Stage::Category => self.on_category_key(key, hub),
            Stage::Location => self.on_location_key(key, hub),
        }
    }

    /// Only text input concerns the wizard.
    pub open spec fn handle(self, action: Action, hub: HubView) -> Step<AddMagnetView> {
        match action {
            Action::Input(key) => self.on_key(key, hub),
            _ => Step::stay(self, hub),
        }
    }
}

impl AddMagnet {
    /// A wizard at its first question. `download_dir` is the daemon's
    /// download directory, offered as the directory to save to.
    pub fn new(categories: Vec<Category>, download_dir: String) -> (task: AddMagnet)
        ensures
            task@ == AddMagnetView::start(categories_view(categories@), download_dir@),
    {
        AddMagnet {
            input_magnet_mgr: InputManager::new(String::from_str("Add magnet URI: ")),
            input_category_mgr: InputManager::new(
                String::from_str("Category (empty for default): "),
            ),
            input_location_mgr: InputManager::new_with_value(
                String::from_str("Directory: "),
                download_dir,
            ),
            stage: Stage::Magnet,
            categories,
        }
    }

    /// Answers the first question with `magnet` and goes on to the next.
    pub fn magnet(self, magnet: String) -> (task: AddMagnet)
        ensures
            task@ == (AddMagnetView {
                magnet: InputView::holding(self@.magnet.prompt, magnet@),
                stage: self@.stage_after_magnet(),
                ..self@
            }),
    {
        let mut task = self;
        task.input_magnet_mgr.set_text(magnet);
        if task.categories.len() == 0 {
            task.stage = Stage::Location;
        } else {
            task.stage = Stage::Category;
        }
        task
    }

    fn handle_input(&mut self, input: KeyEvent, hub: &mut Hub) -> (result: ComponentAction)
        ensures
            (Step { state: final(self)@, hub: final(hub)@, result }) == old(self)@.on_key(
                input,
                old(hub)@,
            ),
    {
        match self.stage {
            Stage::Magnet => self.handle_magnet_input(input, hub),
            Stage::Category => self.handle_category_input(input, hub),
            Stage::Location => self.handle_location_input(input, hub),
        }
    }

    fn handle_magnet_input(&mut self, input: KeyEvent, hub: &mut Hub) -> (result: ComponentAction)
        ensures
            (Step { state: final(self)@, hub: final(hub)@, result }) == old(self)@.on_magnet_key(
                input,
                old(hub)@,
            ),
    {
        if matches!(input.code, KeyCode::Enter) {
            if self.categories.len() == 0 {
                self.stage = Stage::Location;
            } else {
                self.stage = Stage::Category;
            }
            hub.send_action(Action::Render);
            return ComponentAction::Nothing;
        }
        if matches!(input.code, KeyCode::Esc) {
            return ComponentAction::Quit;
        }
        if self.input_magnet_mgr.handle_key(input) {
            hub.send_action(Action::Render);
        }
        ComponentAction::Nothing
    }

    fn handle_category_input(&mut self, input: KeyEvent, hub: &mut Hub) -> (result:
        ComponentAction)
        ensures
            (Step { state: final(self)@, hub: final(hub)@, result })
                == old(self)@.on_category_key(input, old(hub)@),
    {
        if matches!(input.code, KeyCode::Enter) {
            let name = self.input_category_mgr.text();
            if name.as_str().unicode_len() == 0 {
                self.stage = Stage::Location;
                hub.send_action(Action::Render);
                return ComponentAction::Nothing;
            }
            match lookup_category(&self.categories, &name) {
                Some(i) => {
                    assert(categories_view(self.categories@)[i as int]
                        == self.categories@[i as int]@);
                    self.input_location_mgr = InputManager::new_with_value(
                        String::from_str("Directory: "),
                        self.categories[i].default_dir.clone(),
                    );
                    self.stage = Stage::Location;
                    hub.send_action(Action::Render);
                    return ComponentAction::Nothing;
                },
                None => {
                    let mut prompt = String::from_str("Category (");
                    prompt.append(name.as_str());
                    prompt.append(" not found): ");
                    self.input_category_mgr.set_prompt(prompt);
                    hub.send_action(Action::Render);
                    return ComponentAction::Nothing;
                },
            }
        }
        if matches!(input.code, KeyCode::Esc) {
            return ComponentAction::Quit;
        }
        if self.input_category_mgr.handle_key(input) {
            hub.send_action(Action::Render);
        }
        ComponentAction::Nothing
    }

    fn handle_location_input(&mut self, input: KeyEvent, hub: &mut Hub) -> (result:
        ComponentAction)
        ensures
            (Step { state: final(self)@, hub: final(hub)@, result })
                == old(self)@.on_location_key(input, old(hub)@),
    {
        if matches!(input.code, KeyCode::Enter) {
            let entered = self.input_category_mgr.text();
            let category = if entered.as_str().unicode_len() == 0 {
                None
            } else {
                Some(entered)
            };
            hub.send_rpc_action(
                RpcAction::Add {
                    magnet: self.input_magnet_mgr.text(),
                    directory: Some(self.input_location_mgr.text()),
                    category,
                },
            );
            let task = StatusTask::new_add(self.input_magnet_mgr.text());
            hub.send_update_action(UpdateAction::StatusTaskSet(task));
            ComponentAction::Quit
        } else if matches!(input.code, KeyCode::Esc) {
            ComponentAction::Quit
        } else if self.input_location_mgr.handle_key(input) {
            hub.send_action(Action::Render);
            ComponentAction::Nothing
        } else {
            ComponentAction::Nothing
        }
    }

    /// Handles one action: text input goes to the current question, nothing
    /// else concerns the wizard.
    pub fn handle_actions(&mut self, action: Action, hub: &mut Hub) -> (result: ComponentAction)
        ensures
            (Step { state: final(self)@, hub: final(hub)@, result }) == old(self)@.handle(
                action,
                old(hub)@,
            ),
    {
        match action {
            Action::Input(input) => self.handle_input(input, hub),
            _ => ComponentAction::Nothing,
        }
    }
}

} // verus!
