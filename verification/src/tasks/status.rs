//! The status line: an operation in flight, then its outcome for a while.

use vstd::prelude::*;
use crate::action::{Action, ComponentAction};
use crate::component::Step;
use crate::hub::{Hub, HubView};
use crate::messages::{StatusTask, StatusTaskView, UpdateAction, UpdateActionView};

verus! {

/// For how many ticks an outcome stays on show before the status line asks
/// to be cleared.
pub const STATUS_TICKS: u32 = 20;

/// How far the operation in the status line has come.
#[derive(Clone, Copy, Debug, PartialEq, Eq, Structural)]
pub enum CurrentTaskState {
    /// Still in flight; `frame` drives the spinner.
    Loading { frame: u8 },
    /// Done, and on show for `shown_for` ticks so far.
    Success { shown_for: u32 },
    /// Failed, and on show for `shown_for` ticks so far.
    Failure { shown_for: u32 },
}

impl CurrentTaskState {
    /// The state one tick later: the spinner turns by one frame, an outcome
    /// has been on show for one more tick (counting stops at the limit).
    pub open spec fn after_tick(self) -> CurrentTaskState {
        match self {
            CurrentTaskState::Loading { frame } => CurrentTaskState::Loading {
                frame: if frame == u8::MAX {
                    0u8
                } else {
                    (frame + 1) as u8
                },
            },
            CurrentTaskState::Success { shown_for } => CurrentTaskState::Success {
                shown_for: if shown_for >= STATUS_TICKS {
                    shown_for
                } else {
                    (shown_for + 1) as u32
                },
            },
            CurrentTaskState::Failure { shown_for } => CurrentTaskState::Failure {
                shown_for: if shown_for >= STATUS_TICKS {
                    shown_for
                } else {
                    (shown_for + 1) as u32
                },
            },
        }
    }

    /// Whether an outcome has been on show long enough.
    pub open spec fn expired(self) -> bool {
        match self {
            CurrentTaskState::Loading { .. } => false,
            CurrentTaskState::Success { shown_for } => shown_for >= STATUS_TICKS,
            CurrentTaskState::Failure { shown_for } => shown_for >= STATUS_TICKS,
        }
    }
}

pub struct Status {
    pub task: StatusTask,
    pub task_status: CurrentTaskState,
}

pub struct StatusView {
    pub task: StatusTaskView,
    pub state: CurrentTaskState,
}

impl View for Status {
    type V = StatusView;

    open spec fn view(&self) -> StatusView {
        StatusView { task: self.task@, state: self.task_status }
    }
}

impl StatusView {
    /// One tick: while the operation is in flight the spinner turns and is
    /// redrawn; an outcome that has been on show long enough asks to be
    /// cleared.
    pub open spec fn tick(self, hub: HubView) -> Step<StatusView> {
        let state = self.state.after_tick();
        Step::stay(
            StatusView { state, ..self },
            if self.state is Loading {
                hub.with_action(Action::Render)
            } else if state.expired() {
                hub.with_update(UpdateActionView::StatusTaskClear)
            } else {
                hub
            },
        )
    }

    /// Only ticks concern the status line; it never asks to be closed.
    pub open spec fn handle(self, action: Action, hub: HubView) -> Step<StatusView> {
        match action {
            Action::Tick => self.tick(hub),
            _ => Step::stay(self, hub),
        }
    }
}

impl Status {
    pub fn new(task: StatusTask, task_status: CurrentTaskState) -> (status: Status)
        ensures
            status@ == (StatusView { task: task@, state: task_status }),
    {
        Status { task, task_status }
    }

    /// The operation succeeded: show that from now on.
    pub fn set_success(&mut self)
        ensures
            final(self)@ == (StatusView {
                state: CurrentTaskState::Success { shown_for: 0 },
                ..old(self)@
            }),
    {
        self.task_status = CurrentTaskState::Success { shown_for: 0 };
    }

    /// The operation failed: show that from now on.
    pub fn set_failure(&mut self)
        ensures
            final(self)@ == (StatusView {
                state: CurrentTaskState::Failure { shown_for: 0 },
                ..old(self)@
            }),
    {
        self.task_status = CurrentTaskState::Failure { shown_for: 0 };
    }

    /// Whether the operation is still in flight.
    pub fn is_in_progress(&self) -> (b: bool)
        ensures
            b == (self@.state is Loading),
    {
        matches!(self.task_status, CurrentTaskState::Loading { .. })
    }

    pub fn tick(&mut self, hub: &mut Hub)
        ensures
            (Step { state: final(self)@, hub: final(hub)@, result: ComponentAction::Nothing })
                == old(self)@.tick(old(hub)@),
    {
        match self.task_status {
            CurrentTaskState::Loading { frame } => {
                let next: u8 = if frame == u8::MAX {
                    0
                } else {
                    frame + 1
                };
                self.task_status = CurrentTaskState::Loading { frame: next };
                hub.send_action(Action::Render);
            },
            CurrentTaskState::Success { shown_for } => {
                let next: u32 = if shown_for >= STATUS_TICKS {
                    shown_for
                } else {
                    shown_for + 1
                };
                self.task_status = CurrentTaskState::Success { shown_for: next };
                if next >= STATUS_TICKS {
                    hub.send_update_action(UpdateAction::StatusTaskClear);
                }
            },
            CurrentTaskState::Failure { shown_for } => {
                let next: u32 = if shown_for >= STATUS_TICKS {
                    shown_for
                } else {
                    shown_for + 1
                };
                self.task_status = CurrentTaskState::Failure { shown_for: next };
                if next >= STATUS_TICKS {
                    hub.send_update_action(UpdateAction::StatusTaskClear);
                }
            },
        }
    }

    pub fn handle_actions(&mut self, action: Action, hub: &mut Hub) -> (result: ComponentAction)
        ensures
            (Step { state: final(self)@, hub: final(hub)@, result }) == old(self)@.handle(
                action,
                old(hub)@,
            ),
    {
        match action {
            Action::Tick => {
                self.tick(hub);
                ComponentAction::Nothing
            },
            _ => ComponentAction::Nothing,
        }
    }
}

} // verus!
