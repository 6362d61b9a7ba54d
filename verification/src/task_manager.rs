//! The task manager of the torrents tab: exactly one foreground task at a
//! time, and the rules by which one replaces another.

use vstd::prelude::*;
use crate::action::{Action, ComponentAction};
use crate::component::Step;
use crate::hub::{Hub, HubView};
use crate::input::InputView;
use crate::messages::{
    StatusTask, StatusTaskView, Torrent, UpdateAction, UpdateActionView,
};
use crate::tasks::add_magnet::{AddMagnet, AddMagnetView};
use crate::tasks::change_category::{ChangeCategory, ChangeCategoryView};
use crate::tasks::delete_torrent::{delete_prompt, Delete, DeleteView};
use crate::tasks::filter::{filter_handle, filter_prompt, pattern_text, Filter};
use crate::tasks::move_torrent::{move_prompt, Move, MoveView};
use crate::tasks::rename::{rename_prompt, Rename, RenameView};
use crate::tasks::status::{CurrentTaskState, Status, StatusView};
use crate::tasks::{
    categories_view, copy_categories, Category, CategoryView, TorrentSelection,
    TorrentSelectionView,
};

verus! {

/// The foreground task. `Default` is the idle state; `Selection` is the
/// idle state while a multi-selection is held, and shows its size; `Sort` is
/// on show while a sort column is being chosen.
pub enum CurrentTask {
    Default,
    Selection(usize),
    Sort,
    AddMagnet(AddMagnet),
    Delete(Delete),
    Rename(Rename),
    Filter(Filter),
    Move(Move),
    ChangeCategory(ChangeCategory),
    Status(Status),
}

pub enum CurrentTaskView {
    Default,
    Selection(usize),
    Sort,
    AddMagnet(AddMagnetView),
    Delete(DeleteView),
    Rename(RenameView),
    Filter(InputView),
    Move(MoveView),
    ChangeCategory(ChangeCategoryView),
    Status(StatusView),
}

impl View for CurrentTask {
    type V = CurrentTaskView;

    open spec fn view(&self) -> CurrentTaskView {
        match self {
            CurrentTask::Default => CurrentTaskView::Default,
            CurrentTask::Selection(n) => CurrentTaskView::Selection(*n),
            CurrentTask::Sort => CurrentTaskView::Sort,
            CurrentTask::AddMagnet(t) => CurrentTaskView::AddMagnet(t@),
            CurrentTask::Delete(t) => CurrentTaskView::Delete(t@),
            CurrentTask::Rename(t) => CurrentTaskView::Rename(t@),
            CurrentTask::Filter(t) => CurrentTaskView::Filter(t@),
            CurrentTask::Move(t) => CurrentTaskView::Move(t@),
            CurrentTask::ChangeCategory(t) => CurrentTaskView::ChangeCategory(t@),
            CurrentTask::Status(t) => CurrentTaskView::Status(t@),
        }
    }
}

impl CurrentTaskView {
    /// Whether the task reads text from the keyboard.
    pub open spec fn takes_text(self) -> bool {
        self is AddMagnet || self is Delete || self is Rename || self is Filter || self is Move
            || self is ChangeCategory
    }

    /// The idle state that goes with a held multi-selection of `count`
    /// torrents: its size on show, or plain `Default` without one.
    pub open spec fn idle(count: usize) -> CurrentTaskView {
        if count > 0 {
            CurrentTaskView::Selection(count)
        } else {
            CurrentTaskView::Default
        }
    }
}

pub struct TaskManager {
    pub current_task: CurrentTask,
    /// The size of the multi-selection that the tab holds, to come back to
    /// when a task ends.
    pub selection_count: usize,
    pub categories: Vec<Category>,
}

pub struct TaskManagerView {
    pub task: CurrentTaskView,
    pub selection_count: usize,
    pub categories: Seq<CategoryView>,
}

impl View for TaskManager {
    type V = TaskManagerView;

    open spec fn view(&self) -> TaskManagerView {
        TaskManagerView {
            task: self.current_task@,
            selection_count: self.selection_count,
            categories: categories_view(self.categories@),
        }
    }
}

/// The manager and the hub after a transition. The manager never asks to be
/// closed itself.
pub open spec fn installed(manager: TaskManagerView, hub: HubView) -> Step<TaskManagerView> {
    Step::stay(manager, hub)
}

impl TaskManagerView {
    /// The current task is replaced by `task`.
    pub open spec fn with_task(self, task: CurrentTaskView) -> TaskManagerView {
        TaskManagerView { task, ..self }
    }

    /// The manager idles with no multi-selection held.
    pub open spec fn defaulted(self) -> TaskManagerView {
        TaskManagerView { task: CurrentTaskView::Default, selection_count: 0, ..self }
    }

    /// The manager idles with a multi-selection of `amount` torrents held.
    pub open spec fn selecting(self, amount: usize) -> TaskManagerView {
        TaskManagerView { task: CurrentTaskView::idle(amount), selection_count: amount, ..self }
    }

    /// A text-entry task takes over, and the keyboard goes to input mode.
    pub open spec fn enter(self, task: CurrentTaskView, hub: HubView) -> Step<TaskManagerView> {
        installed(self.with_task(task), hub.with_update(UpdateActionView::SwitchToInputMode))
    }

    /// The current task ends: the manager goes back to its idle state and
    /// the keyboard to normal mode. In `Default` there is nothing to end.
    pub open spec fn cancel(self, hub: HubView) -> Step<TaskManagerView> {
        if self.task is Default {
            installed(self, hub)
        } else {
            installed(
                self.with_task(CurrentTaskView::idle(self.selection_count)),
                hub.with_update(UpdateActionView::SwitchToNormalMode),
            )
        }
    }

    /// What follows from the current task's own step: its new state stays
    /// installed, unless it asked to be closed, which ends it.
    pub open spec fn after_child(
        self,
        task: CurrentTaskView,
        result: ComponentAction,
        hub: HubView,
    ) -> Step<TaskManagerView> {
        if result is Quit {
            self.cancel(hub)
        } else {
            installed(self.with_task(task), hub)
        }
    }

    /// An action goes to the current task and to nothing else; the idle
    /// states take none.
    pub open spec fn handle(self, action: Action, hub: HubView) -> Step<TaskManagerView> {
        match self.task {
            CurrentTaskView::AddMagnet(t) => {
                let s = t.handle(action, hub);
                self.after_child(CurrentTaskView::AddMagnet(s.state), s.result, s.hub)
            },
            CurrentTaskView::Delete(t) => {
                let s = t.handle(action, hub);
                self.after_child(CurrentTaskView::Delete(s.state), s.result, s.hub)
            },
            CurrentTaskView::Rename(t) => {
                let s = t.handle(action, hub);
                self.after_child(CurrentTaskView::Rename(s.state), s.result, s.hub)
            },
            CurrentTaskView::Filter(t) => {
                let s = filter_handle(t, action, hub);
                self.after_child(CurrentTaskView::Filter(s.state), s.result, s.hub)
            },
            CurrentTaskView::Move(t) => {
                let s = t.handle(action, hub);
                self.after_child(CurrentTaskView::Move(s.state), s.result, s.hub)
            },
            CurrentTaskView::ChangeCategory(t) => {
                let s = t.handle(action, hub);
                self.after_child(CurrentTaskView::ChangeCategory(s.state), s.result, s.hub)
            },
            CurrentTaskView::Status(t) => {
                let s = t.handle(action, hub);
                self.after_child(CurrentTaskView::Status(s.state), s.result, s.hub)
            },
            _ => installed(self, hub),
        }
    }

    /// A status task takes over with the given state, and the keyboard goes
    /// to normal mode, unless a status task is on show already: that one
    /// stays as it is. The switch to normal mode is sent for a status that
    /// starts as a success too, not only for one in flight: a status reads
    /// no text, and so the keyboard mode stays in step with the task.
    pub open spec fn show_status(self, task: StatusTaskView, state: CurrentTaskState, hub: HubView)
        -> Step<TaskManagerView> {
        if self.task is Status {
            installed(self, hub)
        } else {
            installed(
                self.with_task(CurrentTaskView::Status(StatusView { task, state })),
                hub.with_update(UpdateActionView::SwitchToNormalMode),
            )
        }
    }

    /// The status on show gets a new state; without one nothing happens.
    pub open spec fn mark(self, state: CurrentTaskState) -> TaskManagerView {
        match self.task {
            CurrentTaskView::Status(s) => self.with_task(
                CurrentTaskView::Status(StatusView { state, ..s }),
            ),
            _ => self,
        }
    }

    /// What the manager does with an update: the status notices start,
    /// finish and clear the status task; no other update concerns it.
    pub open spec fn update(self, update: UpdateActionView, hub: HubView) -> Step<TaskManagerView> {
        match update {
            UpdateActionView::StatusTaskClear => self.cancel(hub),
            UpdateActionView::StatusTaskSet(task) => self.show_status(
                task,
                CurrentTaskState::Loading { frame: 0 },
                hub,
            ),
            UpdateActionView::StatusTaskSetSuccess(task) => self.show_status(
                task,
                CurrentTaskState::Success { shown_for: 0 },
                hub,
            ),
            UpdateActionView::StatusTaskSuccess => installed(
                self.mark(CurrentTaskState::Success { shown_for: 0 }),
                hub,
            ),
            UpdateActionView::StatusTaskFailure => installed(
                self.mark(CurrentTaskState::Failure { shown_for: 0 }),
                hub,
            ),
            _ => installed(self, hub),
        }
    }

    /// One tick goes to the status task, if that is the current one.
    pub open spec fn tick(self, hub: HubView) -> Step<TaskManagerView> {
        match self.task {
            CurrentTaskView::Status(s) => installed(
                self.with_task(CurrentTaskView::Status(s.tick(hub).state)),
                s.tick(hub).hub,
            ),
            _ => installed(self, hub),
        }
    }
}

impl TaskManager {
    /// An idle manager.
    pub fn new(categories: Vec<Category>) -> (manager: TaskManager)
        ensures
            manager@ == (TaskManagerView {
                task: CurrentTaskView::Default,
                selection_count: 0,
                categories: categories_view(categories@),
            }),
    {
        TaskManager { current_task: CurrentTask::Default, selection_count: 0, categories }
    }

    /// Hands one action to the current task. A task that asks to be closed
    /// is ended. The manager itself never asks to be closed.
    pub fn handle_actions(&mut self, action: Action, hub: &mut Hub) -> (result: ComponentAction)
        ensures
            (Step { state: final(self)@, hub: final(hub)@, result }) == old(self)@.handle(
                action,
                old(hub)@,
            ),
    {
        let quit = match &mut self.current_task {
            CurrentTask::AddMagnet(task) => task.handle_actions(action, hub).is_quit(),
            CurrentTask::Delete(task) => task.handle_actions(action, hub).is_quit(),
            CurrentTask::Rename(task) => task.handle_actions(action, hub).is_quit(),
            CurrentTask::Filter(task) => task.handle_actions(action, hub).is_quit(),
            CurrentTask::Move(task) => task.handle_actions(action, hub).is_quit(),
            CurrentTask::ChangeCategory(task) => task.handle_actions(action, hub).is_quit(),
            CurrentTask::Status(task) => task.handle_actions(action, hub).is_quit(),
            _ => false,
        };
        if quit {
            self.cancel_task(hub);
        }
        ComponentAction::Nothing
    }

    /// Applies one update: the status notices concern the manager, no other
    /// update does.
    pub fn handle_update_action(&mut self, action: UpdateAction, hub: &mut Hub)
        ensures
            installed(final(self)@, final(hub)@) == old(self)@.update(action@, old(hub)@),
    {
        match action {
            UpdateAction::StatusTaskClear => self.cancel_task(hub),
            UpdateAction::StatusTaskSet(task) => self.pending_task(task, hub),
            UpdateAction::StatusTaskSetSuccess(task) => self.success_task(task, hub),
            UpdateAction::StatusTaskSuccess => {
                if let CurrentTask::Status(status_bar) = &mut self.current_task {
                    status_bar.set_success();
                }
            },
            UpdateAction::StatusTaskFailure => {
                if let CurrentTask::Status(status_bar) = &mut self.current_task {
                    status_bar.set_failure();
                }
            },
            _ => (),
        }
    }

    /// One tick of the main loop.
    pub fn tick(&mut self, hub: &mut Hub)
        ensures
            installed(final(self)@, final(hub)@) == old(self)@.tick(old(hub)@),
    {
        if let CurrentTask::Status(status_bar) = &mut self.current_task {
            status_bar.tick(hub);
        }
    }

    /// Starts the add-magnet wizard, which offers `download_dir`.
    pub fn add_magnet(&mut self, download_dir: String, hub: &mut Hub)
        ensures
            installed(final(self)@, final(hub)@) == old(self)@.enter(
                CurrentTaskView::AddMagnet(
                    AddMagnetView::start(old(self)@.categories, download_dir@),
                ),
                old(hub)@,
            ),
    {
        let categories = copy_categories(&self.categories);
        self.current_task = CurrentTask::AddMagnet(AddMagnet::new(categories, download_dir));
        hub.send_update_action(UpdateAction::SwitchToInputMode);
    }

    /// Opens the filter box on the pattern in force.
    pub fn search(&mut self, current_pattern: &Option<String>, hub: &mut Hub)
        ensures
            installed(final(self)@, final(hub)@) == old(self)@.enter(
                CurrentTaskView::Filter(
                    InputView::holding(filter_prompt(), pattern_text(*current_pattern)),
                ),
                old(hub)@,
            ),
    {
        self.current_task = CurrentTask::Filter(Filter::new(current_pattern));
        hub.send_update_action(UpdateAction::SwitchToInputMode);
    }

    /// Asks for confirmation to delete the given torrents.
    pub fn delete_torrents(&mut self, selection: TorrentSelection, hub: &mut Hub)
        ensures
            installed(final(self)@, final(hub)@) == old(self)@.enter(
                CurrentTaskView::Delete(
                    DeleteView {
                        delete_with_files: false,
                        targets: selection@,
                        input: InputView::empty(delete_prompt()),
                    },
                ),
                old(hub)@,
            ),
    {
        self.current_task = CurrentTask::Delete(Delete::new(selection, false));
        hub.send_update_action(UpdateAction::SwitchToInputMode);
    }

    /// Asks for confirmation to delete one torrent, with its files or not.
    pub fn delete_torrent(&mut self, torrent: &Torrent, delete_with_files: bool, hub: &mut Hub)
        ensures
            installed(final(self)@, final(hub)@) == old(self)@.enter(
                CurrentTaskView::Delete(
                    DeleteView {
                        delete_with_files,
                        targets: TorrentSelectionView::Single(torrent.id, torrent.name@),
                        input: InputView::empty(delete_prompt()),
                    },
                ),
                old(hub)@,
            ),
    {
        let selection = TorrentSelection::Single(torrent.id, torrent.name.clone());
        self.current_task = CurrentTask::Delete(Delete::new(selection, delete_with_files));
        hub.send_update_action(UpdateAction::SwitchToInputMode);
    }

    /// Asks where to move the given torrents, offering `existing_location`.
    pub fn move_torrent(
        &mut self,
        selection: TorrentSelection,
        existing_location: String,
        hub: &mut Hub,
    )
        ensures
            installed(final(self)@, final(hub)@) == old(self)@.enter(
                CurrentTaskView::Move(
                    MoveView {
                        targets: selection@,
                        input: InputView::holding(move_prompt(), existing_location@),
                    },
                ),
                old(hub)@,
            ),
    {
        self.current_task = CurrentTask::Move(Move::new(selection, existing_location));
        hub.send_update_action(UpdateAction::SwitchToInputMode);
    }

    /// Asks for the new name of one torrent.
    pub fn rename(&mut self, id: i64, curr_name: String, hub: &mut Hub)
        ensures
            installed(final(self)@, final(hub)@) == old(self)@.enter(
                CurrentTaskView::Rename(
                    RenameView {
                        id,
                        curr_name: curr_name@,
                        input: InputView::holding(rename_prompt(), curr_name@),
                    },
                ),
                old(hub)@,
            ),
    {
        self.current_task = CurrentTask::Rename(Rename::new(id, curr_name));
        hub.send_update_action(UpdateAction::SwitchToInputMode);
    }

    /// Asks for the category to file the given torrents under.
    pub fn change_category(&mut self, selection: TorrentSelection, hub: &mut Hub)
        ensures
            installed(final(self)@, final(hub)@) == old(self)@.enter(
                CurrentTaskView::ChangeCategory(
                    ChangeCategoryView {
                        targets: selection@,
                        categories: old(self)@.categories,
                        input: InputView::empty(
                            crate::tasks::change_category::new_category_prompt(),
                        ),
                    },
                ),
                old(hub)@,
            ),
    {
        let categories = copy_categories(&self.categories);
        self.current_task = CurrentTask::ChangeCategory(
            ChangeCategory::new(selection, categories),
        );
        hub.send_update_action(UpdateAction::SwitchToInputMode);
    }

    /// Goes idle with no multi-selection held.
    pub fn default(&mut self)
        ensures
            final(self)@ == old(self)@.defaulted(),
    {
        self.current_task = CurrentTask::Default;
        self.selection_count = 0;
    }

    /// Goes idle with a multi-selection of `amount` torrents held.
    pub fn select(&mut self, amount: usize)
        ensures
            final(self)@ == old(self)@.selecting(amount),
    {
        self.selection_count = amount;
        if amount > 0 {
            self.current_task = CurrentTask::Selection(amount);
        } else {
            self.current_task = CurrentTask::Default;
        }
    }

    /// Shows the sorting hints.
    pub fn sort(&mut self)
        ensures
            final(self)@ == old(self)@.with_task(CurrentTaskView::Sort),
    {
        self.current_task = CurrentTask::Sort;
    }

    /// Whether the manager idles on a held multi-selection.
    pub fn is_selection_task(&self) -> (b: bool)
        ensures
            b == (self@.task is Selection),
    {
        matches!(self.current_task, CurrentTask::Selection(_))
    }

    /// Whether a status task is on show whose operation is still in flight.
    pub fn is_status_task_in_progress(&self) -> (b: bool)
        ensures
            b == (self@.task matches CurrentTaskView::Status(s) && s.state is Loading),
    {
        match &self.current_task {
            CurrentTask::Status(status) => status.is_in_progress(),
            _ => false,
        }
    }

    fn success_task(&mut self, task: StatusTask, hub: &mut Hub)
        ensures
            installed(final(self)@, final(hub)@) == old(self)@.show_status(
                task@,
                CurrentTaskState::Success { shown_for: 0 },
                old(hub)@,
            ),
    {
        if matches!(self.current_task, CurrentTask::Status(_)) {
            return;
        }
        self.current_task = CurrentTask::Status(
            Status::new(task, CurrentTaskState::Success { shown_for: 0 }),
        );
        hub.send_update_action(UpdateAction::SwitchToNormalMode);
    }

    fn pending_task(&mut self, task: StatusTask, hub: &mut Hub)
        ensures
            installed(final(self)@, final(hub)@) == old(self)@.show_status(
                task@,
                CurrentTaskState::Loading { frame: 0 },
                old(hub)@,
            ),
    {
        if matches!(self.current_task, CurrentTask::Status(_)) {
            return;
        }
        self.current_task = CurrentTask::Status(
            Status::new(task, CurrentTaskState::Loading { frame: 0 }),
        );
        hub.send_update_action(UpdateAction::SwitchToNormalMode);
    }

    /// Ends the current task, whatever it is.
    pub fn cancel_task(&mut self, hub: &mut Hub)
        ensures
            installed(final(self)@, final(hub)@) == old(self)@.cancel(old(hub)@),
    {
        if matches!(self.current_task, CurrentTask::Default) {
            return;
        }
        if self.selection_count > 0 {
            self.current_task = CurrentTask::Selection(self.selection_count);
        } else {
            self.current_task = CurrentTask::Default;
        }
        hub.send_update_action(UpdateAction::SwitchToNormalMode);
    }
}

/// One transition of the task manager.
pub enum Transition {
    /// An action is handed to the current task.
    Action(Action),
    /// An update is applied.
    Update(UpdateActionView),
    /// One tick passes.
    Tick,
    /// A text-entry task is started.
    Enter(CurrentTaskView),
    /// The current task is ended.
    Cancel,
}

impl TaskManagerView {
    /// The manager and the hub after one transition.
    pub open spec fn step(self, transition: Transition, hub: HubView) -> Step<TaskManagerView> {
        match transition {
            Transition::Action(action) => self.handle(action, hub),
            Transition::Update(update) => self.update(update, hub),
            Transition::Tick => self.tick(hub),
            Transition::Enter(task) => self.enter(task, hub),
            Transition::Cancel => self.cancel(hub),
        }
    }

    /// The manager and the hub after a run of transitions.
    pub open spec fn run(self, transitions: Seq<Transition>, hub: HubView) -> Step<TaskManagerView>
        decreases transitions.len(),
    {
        if transitions.len() == 0 {
            installed(self, hub)
        } else {
            let before = self.run(transitions.drop_last(), hub);
            before.state.step(transitions.last(), before.hub)
        }
    }
}

/// Whether the keyboard is in input mode after the updates were applied to
/// a main loop that was in input mode, or not, before: the last switch
/// among them decides, and without one the mode is as before.
pub open spec fn input_mode_after(updates: Seq<UpdateActionView>, before: bool) -> bool
    decreases updates.len(),
{
    if updates.len() == 0 {
        before
    } else if updates.last() is SwitchToInputMode {
        true
    } else if updates.last() is SwitchToNormalMode {
        false
    } else {
        input_mode_after(updates.drop_last(), before)
    }
}

/// Whether a transition is one that can be asked of the manager: a task
/// that is started has to be one that reads text.
pub open spec fn admissible(transition: Transition) -> bool {
    transition matches Transition::Enter(task) ==> task.takes_text()
}

/// One transition keeps the keyboard mode in step with the task: if the
/// keyboard was in input mode exactly when the current task read text, it
/// is so afterwards.
pub proof fn lemma_step_keeps_mode(manager: TaskManagerView, transition: Transition, hub: HubView)
    requires
        admissible(transition),
    ensures
        ({
            let s = manager.step(transition, hub);
            forall|before: bool|
                input_mode_after(hub.updates, before) == manager.task.takes_text()
                    ==> #[trigger] input_mode_after(s.hub.updates, before)
                    == s.state.task.takes_text()
        }),
{
    let s = manager.step(transition, hub);
    assert forall|before: bool|
        input_mode_after(hub.updates, before)
            == manager.task.takes_text() implies #[trigger] input_mode_after(
        s.hub.updates,
        before,
    ) == s.state.task.takes_text() by {
        lemma_mode_of_step(manager, transition, hub, before);
    }
}

proof fn lemma_mode_pushed(updates: Seq<UpdateActionView>, update: UpdateActionView, before: bool)
    ensures
        input_mode_after(updates.push(update), before) == (if update is SwitchToInputMode {
            true
        } else if update is SwitchToNormalMode {
            false
        } else {
            input_mode_after(updates, before)
        }),
{
    assert(updates.push(update).drop_last() =~= updates);
}

proof fn lemma_mode_of_step(
    manager: TaskManagerView,
    transition: Transition,
    hub: HubView,
    before: bool,
)
    requires
        admissible(transition),
        input_mode_after(hub.updates, before) == manager.task.takes_text(),
    ensures
        input_mode_after(manager.step(transition, hub).hub.updates, before) == manager.step(
            transition,
            hub,
        ).state.task.takes_text(),
{
    let s = manager.step(transition, hub);
    match transition {
        Transition::Action(action) => {
            lemma_mode_of_action(manager, action, hub, before);
        },
        Transition::Update(update) => {
            lemma_mode_pushed(hub.updates, UpdateActionView::SwitchToNormalMode, before);
        },
        Transition::Tick => {
            match manager.task {
                CurrentTaskView::Status(status) => {
                    lemma_mode_pushed(hub.updates, UpdateActionView::StatusTaskClear, before);
                },
                _ => {},
            }
        },
        Transition::Enter(task) => {
            lemma_mode_pushed(hub.updates, UpdateActionView::SwitchToInputMode, before);
        },
        Transition::Cancel => {
            lemma_mode_pushed(hub.updates, UpdateActionView::SwitchToNormalMode, before);
        },
    }
}

proof fn lemma_mode_of_child(
    manager: TaskManagerView,
    task: CurrentTaskView,
    result: ComponentAction,
    child_hub: HubView,
    hub: HubView,
    before: bool,
)
    requires
        input_mode_after(hub.updates, before) == manager.task.takes_text(),
        input_mode_after(child_hub.updates, before) == input_mode_after(hub.updates, before),
        task.takes_text() == manager.task.takes_text(),
        !(manager.task is Default),
    ensures
        input_mode_after(manager.after_child(task, result, child_hub).hub.updates, before)
            == manager.after_child(task, result, child_hub).state.task.takes_text(),
{
    lemma_mode_pushed(child_hub.updates, UpdateActionView::SwitchToNormalMode, before);
}

proof fn lemma_mode_of_action(manager: TaskManagerView, action: Action, hub: HubView, before: bool)
    requires
        input_mode_after(hub.updates, before) == manager.task.takes_text(),
    ensures
        input_mode_after(manager.handle(action, hub).hub.updates, before) == manager.handle(
            action,
            hub,
        ).state.task.takes_text(),
{
    match manager.task {
        CurrentTaskView::AddMagnet(t) => {
            let s = t.handle(action, hub);
            if s.hub.updates != hub.updates {
                lemma_mode_pushed(hub.updates, s.hub.updates.last(), before);
                assert(s.hub.updates =~= hub.updates.push(s.hub.updates.last()));
            }
            lemma_mode_of_child(
                manager,
                CurrentTaskView::AddMagnet(s.state),
                s.result,
                s.hub,
                hub,
                before,
            );
        },
        CurrentTaskView::Delete(t) => {
            let s = t.handle(action, hub);
            if s.hub.updates != hub.updates {
                lemma_mode_pushed(hub.updates, s.hub.updates.last(), before);
                assert(s.hub.updates =~= hub.updates.push(s.hub.updates.last()));
            }
            lemma_mode_of_child(
                manager,
                CurrentTaskView::Delete(s.state),
                s.result,
                s.hub,
                hub,
                before,
            );
        },
        CurrentTaskView::Rename(t) => {
            let s = t.handle(action, hub);
            if s.hub.updates != hub.updates {
                lemma_mode_pushed(hub.updates, s.hub.updates.last(), before);
                assert(s.hub.updates =~= hub.updates.push(s.hub.updates.last()));
            }
            lemma_mode_of_child(
                manager,
                CurrentTaskView::Rename(s.state),
                s.result,
                s.hub,
                hub,
                before,
            );
        },
        CurrentTaskView::Filter(t) => {
            let s = filter_handle(t, action, hub);
            if s.hub.updates != hub.updates {
                lemma_mode_pushed(hub.updates, s.hub.updates.last(), before);
                assert(s.hub.updates =~= hub.updates.push(s.hub.updates.last()));
            }
            lemma_mode_of_child(
                manager,
                CurrentTaskView::Filter(s.state),
                s.result,
                s.hub,
                hub,
                before,
            );
        },
        CurrentTaskView::Move(t) => {
            let s = t.handle(action, hub);
            if s.hub.updates != hub.updates {
                lemma_mode_pushed(hub.updates, s.hub.updates.last(), before);
                assert(s.hub.updates =~= hub.updates.push(s.hub.updates.last()));
            }
            lemma_mode_of_child(
                manager,
                CurrentTaskView::Move(s.state),
                s.result,
                s.hub,
                hub,
                before,
            );
        },
        CurrentTaskView::ChangeCategory(t) => {
            let s = t.handle(action, hub);
            if s.hub.updates != hub.updates {
                lemma_mode_pushed(hub.updates, s.hub.updates.last(), before);
                assert(s.hub.updates =~= hub.updates.push(s.hub.updates.last()));
            }
            lemma_mode_of_child(
                manager,
                CurrentTaskView::ChangeCategory(s.state),
                s.result,
                s.hub,
                hub,
                before,
            );
        },
        CurrentTaskView::Status(t) => {
            let s = t.handle(action, hub);
            if s.hub.updates != hub.updates {
                lemma_mode_pushed(hub.updates, s.hub.updates.last(), before);
                assert(s.hub.updates =~= hub.updates.push(s.hub.updates.last()));
            }
            lemma_mode_of_child(
                manager,
                CurrentTaskView::Status(s.state),
                s.result,
                s.hub,
                hub,
                before,
            );
        },
        _ => {},
    }
}

/// Over any run of transitions the manager holds one task at a time, and
/// the keyboard mode stays in step with it: if the keyboard was in input
/// mode exactly when the current task read text, then after every
/// transition of the run it is in input mode exactly when the task that is
/// then the current one reads text.
pub proof fn lemma_run_keeps_mode(
    manager: TaskManagerView,
    transitions: Seq<Transition>,
    hub: HubView,
    before: bool,
)
    requires
        forall|k: int| 0 <= k < transitions.len() ==> admissible(#[trigger] transitions[k]),
        input_mode_after(hub.updates, before) == manager.task.takes_text(),
    ensures
        forall|n: int|
            0 <= n <= transitions.len() ==> input_mode_after(
                (#[trigger] manager.run(transitions.take(n), hub)).hub.updates,
                before,
            ) == manager.run(transitions.take(n), hub).state.task.takes_text(),
    decreases transitions.len(),
{
    assert forall|n: int| 0 <= n <= transitions.len() implies input_mode_after(
        (#[trigger] manager.run(transitions.take(n), hub)).hub.updates,
        before,
    ) == manager.run(transitions.take(n), hub).state.task.takes_text() by {
        lemma_prefix_keeps_mode(manager, transitions.take(n), hub, before);
    }
}

proof fn lemma_prefix_keeps_mode(
    manager: TaskManagerView,
    transitions: Seq<Transition>,
    hub: HubView,
    before: bool,
)
    requires
        forall|k: int| 0 <= k < transitions.len() ==> admissible(#[trigger] transitions[k]),
        input_mode_after(hub.updates, before) == manager.task.takes_text(),
    ensures
        input_mode_after(manager.run(transitions, hub).hub.updates, before) == manager.run(
            transitions,
            hub,
        ).state.task.takes_text(),
    decreases transitions.len(),
{
    if transitions.len() > 0 {
        let earlier = transitions.drop_last();
        assert forall|k: int| 0 <= k < earlier.len() implies admissible(#[trigger] earlier[k]) by {
            assert(earlier[k] == transitions[k]);
        }
        lemma_prefix_keeps_mode(manager, earlier, hub, before);
        let s = manager.run(earlier, hub);
        assert(admissible(transitions[transitions.len() - 1]));
        lemma_mode_of_step(s.state, transitions.last(), s.hub, before);
    }
}

} // verus!
