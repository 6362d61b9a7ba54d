//! The torrents tab: the torrent list, the one popup slot and the one
//! foreground task, and the rules by which actions and updates reach them.

pub mod bottom_stats;
pub mod files;
pub mod popups;
pub mod table_manager;
pub mod tree;

use vstd::prelude::*;
use vstd::string::*;
use crate::action::{Action, ComponentAction};
use crate::component::Step;
use crate::hub::{Hub, HubView};
use crate::input::InputView;
use crate::messages::{
    opt_text, Command, CommandView, OpenTarget, Poller, RpcAction, RpcActionView, Torrent,
    TorrentStatus, TorrentWindow, UpdateAction, UpdateActionView,
};
use crate::table::GenericTable;
use crate::task_manager::{CurrentTaskView, TaskManager, TaskManagerView};
use crate::tasks::add_magnet::AddMagnetView;
use crate::tasks::change_category::{new_category_prompt, ChangeCategoryView};
use crate::tasks::delete_torrent::{delete_prompt, DeleteView};
use crate::tasks::filter::filter_prompt;
use crate::tasks::move_torrent::{move_prompt, MoveView};
use crate::tasks::rename::{rename_prompt, RenameView};
use crate::tasks::{Category, TorrentSelection, TorrentSelectionView};
use crate::torrents::bottom_stats::{indicator, BottomStats};
use crate::torrents::files::{FilesPopup, FilesPopupView};
use crate::torrents::popups::{
    refreshed, slot_admits, slot_handle, CurrentPopup, CurrentPopupView, DetailsPopup,
    PopupManager, StatisticsPopup,
};
use crate::torrents::table_manager::{TableManager, TableView};

verus! {

/// The tokens of the three jobs that run as long as the tab.
pub const STATS_POLLER: u64 = 0;

pub const TORRENTS_POLLER: u64 = 1;

pub const FREE_SPACE_POLLER: u64 = 2;

/// The first token for the jobs of popups.
pub const FIRST_POPUP_TOKEN: u64 = 3;

/// The token behind `token` for the jobs of popups.
pub open spec fn token_after(token: u64) -> u64 {
    if token == u64::MAX {
        FIRST_POPUP_TOKEN
    } else {
        (token + 1) as u64
    }
}

pub struct TorrentsTab {
    pub current_window: TorrentWindow,
    pub table_manager: TableManager,
    pub popup_manager: PopupManager,
    pub task_manager: TaskManager,
    pub bottom_stats: BottomStats,
    /// The daemon's download directory, once the session has told it.
    pub download_dir: Option<String>,
    /// The token for the next popup job.
    pub next_token: u64,
}

pub struct TorrentsTabView {
    pub current_window: TorrentWindow,
    pub table: TableView,
    pub popup: Option<CurrentPopupView>,
    pub tasks: TaskManagerView,
    pub bottom: BottomStats,
    pub download_dir: Option<Seq<char>>,
    pub next_token: u64,
}

impl View for TorrentsTab {
    type V = TorrentsTabView;

    open spec fn view(&self) -> TorrentsTabView {
        TorrentsTabView {
            current_window: self.current_window,
            table: self.table_manager@,
            popup: self.popup_manager@,
            tasks: self.task_manager@,
            bottom: self.bottom_stats,
            download_dir: opt_text(self.download_dir),
            next_token: self.next_token,
        }
    }
}

impl TorrentsTabView {
    /// A new tab: no torrents, no popup, no task, nothing known of the
    /// session yet.
    pub open spec fn start(categories: Seq<crate::tasks::CategoryView>, headers_no: usize)
        -> TorrentsTabView {
        TorrentsTabView {
            current_window: TorrentWindow::General,
            table: TableView {
                items: Seq::empty(),
                cursor: None,
                offset: 0,
                selected_ids: Seq::empty(),
                pattern: None,
                sorting: false,
                sort_header: None,
                sort_reverse: false,
                displaying_no: 0,
                headers_no,
            },
            popup: None,
            tasks: TaskManagerView {
                task: CurrentTaskView::Default,
                selection_count: 0,
                categories,
            },
            bottom: BottomStats { stats: None, free_space: None, position: None },
            download_dir: None,
            next_token: FIRST_POPUP_TOKEN,
        }
    }

    /// The tab with its task manager after a step of that.
    pub open spec fn with_tasks(self, s: Step<TaskManagerView>) -> Step<TorrentsTabView> {
        Step::stay(TorrentsTabView { tasks: s.state, ..self }, s.hub)
    }

    /// The tab with another table, the indicator in the bottom line
    /// brought up to date, and a redraw asked for.
    pub open spec fn with_table(self, table: TableView, hub: HubView) -> Step<TorrentsTabView> {
        Step::stay(self.showing(table), hub.with_action(Action::Render))
    }

    /// The tab with another table and the indicator brought up to date.
    pub open spec fn showing(self, table: TableView) -> TorrentsTabView {
        TorrentsTabView {
            table,
            bottom: BottomStats {
                position: indicator(table.cursor, table.shown().len()),
                ..self.bottom
            },
            ..self
        }
    }

    /// The cursor goes to another row.
    pub open spec fn moved(self, cursor: Option<usize>, hub: HubView) -> Step<TorrentsTabView> {
        self.with_table(self.table.with_cursor(cursor), hub)
    }

    /// The idle state that goes with the multi-selection as it is.
    pub open spec fn idle_tasks(self) -> TaskManagerView {
        if self.table.selected_ids.len() > 0 {
            self.tasks.selecting(self.table.selected_ids.len() as usize)
        } else {
            self.tasks.defaulted()
        }
    }

    /// An action while a sort column is being chosen: the arrows move and
    /// turn the choice, Confirm makes it, `Close` gives it up; nothing else
    /// is taken.
    pub open spec fn handle_sorting(self, action: Action, hub: HubView) -> Step<TorrentsTabView> {
        let redraw = hub.with_action(Action::Render);
        match action {
            Action::Close => Step::stay(
                TorrentsTabView {
                    table: self.table.sorting_left(),
                    tasks: self.tasks.defaulted(),
                    ..self
                },
                redraw,
            ),
            Action::MoveToColumnLeft => Step::stay(
                TorrentsTabView { table: self.table.column_left(), ..self },
                redraw,
            ),
            Action::MoveToColumnRight => Step::stay(
                TorrentsTabView { table: self.table.column_right(), ..self },
                redraw,
            ),
            Action::Down => Step::stay(
                TorrentsTabView { table: self.table.sort_reversed(), ..self },
                redraw,
            ),
            Action::Up => Step::stay(
                TorrentsTabView { table: self.table.sort_reversed(), ..self },
                redraw,
            ),
            Action::Confirm => Step::stay(
                TorrentsTabView {
                    table: self.table.sort_applied(),
                    tasks: self.tasks.defaulted(),
                    ..self
                },
                redraw,
            ),
            _ => Step::stay(self, hub),
        }
    }

    /// The files popup opens for the torrent under the cursor, under the
    /// next token, and the key bindings of the file viewer come into force.
    pub open spec fn show_files(self, hub: HubView) -> Step<TorrentsTabView> {
        match self.table.current() {
            Some(i) => Step::stay(
                TorrentsTabView {
                    popup: Some(
                        CurrentPopupView::Files(
                            FilesPopupView::opened(self.table.items[i as int].id, self.next_token),
                        ),
                    ),
                    next_token: token_after(self.next_token),
                    ..self
                },
                hub.with_command(
                    CommandView::Spawn {
                        token: self.next_token,
                        poller: Poller::TorrentFiles { torrent_id: self.table.items[i as int].id },
                    },
                ).with_update(UpdateActionView::ChangeTorrentWindow(TorrentWindow::FileViewer)),
            ),
            None => Step::stay(self, hub),
        }
    }

    /// The torrent under the cursor is started if it is stopped, and
    /// stopped if it is not; its row shows the new status at once.
    pub open spec fn pause_current(self, hub: HubView) -> Step<TorrentsTabView> {
        match self.table.current() {
            Some(i) => if self.table.items[i as int].status is Stopped {
                Step::stay(
                    TorrentsTabView {
                        table: self.table.with_status(i as int, TorrentStatus::Downloading),
                        ..self
                    },
                    hub.with_request(
                        RpcActionView::Start(seq![self.table.items[i as int].id]),
                    ).with_action(Action::Render),
                )
            } else {
                Step::stay(
                    TorrentsTabView {
                        table: self.table.with_status(i as int, TorrentStatus::Stopped),
                        ..self
                    },
                    hub.with_request(
                        RpcActionView::Stop(seq![self.table.items[i as int].id]),
                    ).with_action(Action::Render),
                )
            },
            None => Step::stay(self, hub),
        }
    }

    /// The verbs of the tab, for when neither a popup nor the choice of a
    /// sort column nor a quit stands in the way.
    pub open spec fn handle_verb(self, action: Action, hub: HubView) -> Step<TorrentsTabView> {
        let len = self.table.shown().len();
        let cursor = self.table.cursor;
        match action {
            Action::Up => self.moved(GenericTable::<Torrent>::after_previous(cursor, len), hub),
            Action::Down => self.moved(GenericTable::<Torrent>::after_next(cursor, len), hub),
            Action::ScrollUpPage => self.moved(
                GenericTable::<Torrent>::after_scroll_up(
                    cursor,
                    len,
                    self.table.displaying_no as nat,
                ),
                hub,
            ),
            Action::ScrollDownPage => self.moved(
                GenericTable::<Torrent>::after_scroll_down(
                    cursor,
                    len,
                    self.table.displaying_no as nat,
                ),
                hub,
            ),
            Action::ScrollUpBy(amount) => self.moved(
                GenericTable::<Torrent>::after_scroll_up(cursor, len, amount as nat),
                hub,
            ),
            Action::ScrollDownBy(amount) => self.moved(
                GenericTable::<Torrent>::after_scroll_down(cursor, len, amount as nat),
                hub,
            ),
            Action::Home => self.moved(
                if len == 0 {
                    cursor
                } else {
                    Some(0usize)
                },
                hub,
            ),
            Action::End => self.moved(
                if len == 0 {
                    cursor
                } else {
                    Some((len - 1) as usize)
                },
                hub,
            ),
            Action::ShowStats => match self.bottom.stats {
                Some(stats) => Step::stay(
                    TorrentsTabView { popup: Some(CurrentPopupView::Stats(stats)), ..self },
                    hub.with_action(Action::Render),
                ),
                None => Step::stay(self, hub),
            },
            Action::ShowFiles => self.show_files(hub),
            Action::Confirm => match self.table.current() {
                Some(i) => Step::stay(
                    TorrentsTabView {
                        popup: Some(CurrentPopupView::Details(self.table.items[i as int])),
                        ..self
                    },
                    hub.with_action(Action::Render),
                ),
                None => Step::stay(self, hub),
            },
            Action::Select => {
                let tab = TorrentsTabView { table: self.table.toggled_current(), ..self };
                Step::stay(
                    TorrentsTabView { tasks: tab.idle_tasks(), ..tab },
                    hub.with_action(Action::Render),
                )
            },
            Action::Pause => self.pause_current(hub),
            Action::Delete => match self.table.selection() {
                Some(targets) => self.with_tasks(
                    self.tasks.enter(
                        CurrentTaskView::Delete(
                            DeleteView {
                                delete_with_files: false,
                                targets,
                                input: InputView::empty(delete_prompt()),
                            },
                        ),
                        hub,
                    ),
                ),
                None => Step::stay(self, hub),
            },
            Action::Rename => match self.table.selection() {
                Some(TorrentSelectionView::Single(id, name)) => self.with_tasks(
                    self.tasks.enter(
                        CurrentTaskView::Rename(
                            RenameView {
                                id,
                                curr_name: name,
                                input: InputView::holding(rename_prompt(), name),
                            },
                        ),
                        hub,
                    ),
                ),
                _ => Step::stay(self, hub),
            },
            Action::AddMagnet => self.with_tasks(
                self.tasks.enter(
                    CurrentTaskView::AddMagnet(
                        AddMagnetView::start(
                            self.tasks.categories,
                            match self.download_dir {
                                Some(dir) => dir,
                                None => Seq::empty(),
                            },
                        ),
                    ),
                    hub,
                ),
            ),
            Action::Search => self.with_tasks(
                self.tasks.enter(
                    CurrentTaskView::Filter(
                        InputView::holding(
                            filter_prompt(),
                            match self.table.pattern {
                                Some(p) => p,
                                None => Seq::empty(),
                            },
                        ),
                    ),
                    hub,
                ),
            ),
            Action::MoveTorrent => match (self.table.selection(), self.download_dir) {
                (Some(targets), Some(dir)) => self.with_tasks(
                    self.tasks.enter(
                        CurrentTaskView::Move(
                            MoveView { targets, input: InputView::holding(move_prompt(), dir) },
                        ),
                        hub,
                    ),
                ),
                _ => Step::stay(self, hub),
            },
            Action::ChangeCategory => match self.table.selection() {
                Some(targets) => self.with_tasks(
                    self.tasks.enter(
                        CurrentTaskView::ChangeCategory(
                            ChangeCategoryView {
                                targets,
                                categories: self.tasks.categories,
                                input: InputView::empty(new_category_prompt()),
                            },
                        ),
                        hub,
                    ),
                ),
                None => Step::stay(self, hub),
            },
            Action::XdgOpen => match self.table.current() {
                Some(i) => Step::stay(
                    self,
                    hub.with_command(
                        CommandView::Open {
                            path: self.table.items[i as int].location(),
                            target: OpenTarget::TorrentDirectory,
                        },
                    ),
                ),
                None => Step::stay(self, hub),
            },
            Action::MoveToColumnLeft => Step::stay(
                TorrentsTabView {
                    table: self.table.sorting_entered(),
                    tasks: self.tasks.with_task(CurrentTaskView::Sort),
                    ..self
                },
                hub.with_action(Action::Render),
            ),
            Action::MoveToColumnRight => Step::stay(
                TorrentsTabView {
                    table: self.table.sorting_entered(),
                    tasks: self.tasks.with_task(CurrentTaskView::Sort),
                    ..self
                },
                hub.with_action(Action::Render),
            ),
            _ => self.with_tasks(self.tasks.handle(action, hub)),
        }
    }

    /// What the tab does with an action. A popup on show gets every action,
    /// and nothing else does. Else the choice of a sort column, if one is
    /// under way, gets it. Else a quit or `Close` empties the
    /// multi-selection, if there is one; without one a quit is passed on as
    /// the hard quit. Every other action is one of the tab's verbs, or goes
    /// to the foreground task.
    pub open spec fn handle(self, action: Action, hub: HubView) -> Step<TorrentsTabView> {
        if self.popup is Some {
            let s = slot_handle(self.popup, action, hub);
            Step::stay(TorrentsTabView { popup: s.state, ..self }, s.hub)
        } else if self.table.sorting {
            self.handle_sorting(action, hub)
        } else if self.table.selected_ids.len() > 0 && action.is_soft_quit() {
            Step::stay(
                TorrentsTabView {
                    table: TableView { selected_ids: Seq::empty(), ..self.table },
                    tasks: self.tasks.defaulted(),
                    ..self
                },
                hub.with_action(Action::Render),
            )
        } else if action.is_quit() {
            Step::stay(self, hub.with_action(Action::HardQuit))
        } else {
            self.handle_verb(action, hub)
        }
    }

    /// What the tab does with an update, but for fresh metadata of one
    /// torrent, which is the files popup's alone.
    pub open spec fn update(self, update: UpdateActionView, hub: HubView) -> Step<TorrentsTabView> {
        match update {
            UpdateActionView::ChangeTorrentWindow(window) => Step::stay(
                TorrentsTabView { current_window: window, ..self },
                hub,
            ),
            UpdateActionView::SessionStats(stats) => Step::stay(
                TorrentsTabView {
                    popup: match self.popup {
                        Some(CurrentPopupView::Stats(_)) => Some(CurrentPopupView::Stats(stats)),
                        _ => self.popup,
                    },
                    bottom: BottomStats { stats: Some(stats), ..self.bottom },
                    ..self
                },
                hub,
            ),
            UpdateActionView::FreeSpace(free_space) => Step::stay(
                TorrentsTabView {
                    bottom: BottomStats { free_space: Some(free_space), ..self.bottom },
                    ..self
                },
                hub,
            ),
            UpdateActionView::SearchFilterApply(pattern) => Step::stay(
                self.showing(self.table.filtered(Some(pattern))),
                hub,
            ),
            UpdateActionView::SearchFilterClear => Step::stay(
                self.showing(self.table.filtered(None)),
                hub,
            ),
            UpdateActionView::UpdateTorrents(rows) => {
                let tab = self.showing(self.table.with_rows(rows@));
                Step::stay(
                    if tab.table.selected_ids.len() == 0 && tab.tasks.task is Selection {
                        TorrentsTabView { tasks: tab.tasks.defaulted(), ..tab }
                    } else {
                        tab
                    },
                    hub,
                )
            },
            UpdateActionView::CancelTorrentTask => if self.tasks.task matches CurrentTaskView::Status(
                s,
            ) && s.state is Loading {
                Step::stay(self, hub)
            } else {
                Step::stay(
                    TorrentsTabView { tasks: self.idle_tasks(), ..self },
                    hub.with_update(UpdateActionView::SwitchToNormalMode),
                )
            },
            _ => self.with_tasks(self.tasks.update(update, hub)),
        }
    }
}

impl TorrentsTab {
    pub open spec fn wf(&self) -> bool {
        &&& self.table_manager.wf()
        &&& self.popup_manager.wf()
    }

    /// A tab without torrents, and the start of the three jobs that fetch
    /// the session totals, the torrent list and the free space for as long
    /// as the tab lives.
    pub fn new(categories: Vec<Category>, headers_no: usize, hub: &mut Hub) -> (tab: TorrentsTab)
        ensures
            tab.wf(),
            tab@ == TorrentsTabView::start(crate::tasks::categories_view(categories@), headers_no),
            final(hub)@ == old(hub)@.with_command(
                CommandView::Spawn { token: STATS_POLLER, poller: Poller::SessionStats },
            ).with_command(
                CommandView::Spawn { token: TORRENTS_POLLER, poller: Poller::TorrentList },
            ).with_command(
                CommandView::Spawn { token: FREE_SPACE_POLLER, poller: Poller::FreeSpace },
            ),
    {
        hub.send_command(Command::Spawn { token: STATS_POLLER, poller: Poller::SessionStats });
        hub.send_command(Command::Spawn { token: TORRENTS_POLLER, poller: Poller::TorrentList });
        hub.send_command(Command::Spawn { token: FREE_SPACE_POLLER, poller: Poller::FreeSpace });
        TorrentsTab {
            bottom_stats: BottomStats::new(),
            task_manager: TaskManager::new(categories),
            table_manager: TableManager::new(headers_no),
            popup_manager: PopupManager::new(),
            current_window: TorrentWindow::General,
            download_dir: None,
            next_token: FIRST_POPUP_TOKEN,
        }
    }

    /// Takes over the daemon's download directory.
    pub fn set_download_dir(&mut self, download_dir: String)
        ensures
            final(self)@ == (TorrentsTabView { download_dir: Some(download_dir@), ..old(self)@ }),
            final(self).table_manager == old(self).table_manager,
            final(self).popup_manager == old(self).popup_manager,
    {
        self.download_dir = Some(download_dir);
    }

    fn refresh_indicator(&mut self)
        requires
            old(self).wf(),
        ensures
            final(self).wf(),
            final(self)@ == old(self)@.showing(old(self)@.table),
    {
        proof {
            self.table_manager.lemma_shown_len();
        }
        let len = self.table_manager.table.get_len();
        self.bottom_stats.update_selected_indicator(self.table_manager.table.selected, len);
    }

    fn handle_sorting(&mut self, action: Action, hub: &mut Hub)
        requires
            old(self).wf(),
        ensures
            final(self).wf(),
            (Step { state: final(self)@, hub: final(hub)@, result: ComponentAction::Nothing })
                == old(self)@.handle_sorting(action, old(hub)@),
    {
        match action {
            Action::Close => {
                self.table_manager.leave_sorting();
                self.task_manager.default();
                hub.send_action(Action::Render);
            },
            Action::MoveToColumnLeft => {
                self.table_manager.move_to_column_left();
                hub.send_action(Action::Render);
            },
            Action::MoveToColumnRight => {
                self.table_manager.move_to_column_right();
                hub.send_action(Action::Render);
            },
            Action::Down | Action::Up => {
                self.table_manager.reverse_sort();
                hub.send_action(Action::Render);
            },
            Action::Confirm => {
                self.table_manager.apply_sort();
                self.task_manager.default();
                hub.send_action(Action::Render);
            },
            _ => (),
        }
    }

    fn after_move(&mut self, hub: &mut Hub)
        requires
            old(self).wf(),
        ensures
            final(self).wf(),
            (Step { state: final(self)@, hub: final(hub)@, result: ComponentAction::Nothing })
                == old(self)@.with_table(old(self)@.table, old(hub)@),
    {
        self.refresh_indicator();
        hub.send_action(Action::Render);
    }

    fn show_files_popup(&mut self, hub: &mut Hub)
        requires
            old(self).wf(),
            old(self)@.popup is None,
        ensures
            final(self).wf(),
            (Step { state: final(self)@, hub: final(hub)@, result: ComponentAction::Nothing })
                == old(self)@.show_files(old(hub)@),
    {
        let id = match self.table_manager.current_torrent() {
            Some(t) => t.id,
            None => {
                return;
            },
        };
        let token = self.next_token;
        self.next_token = if token == u64::MAX {
            FIRST_POPUP_TOKEN
        } else {
            token + 1
        };
        let popup = FilesPopup::new(id, token, hub);
        self.popup_manager.show_popup(CurrentPopup::Files(popup), hub);
        hub.send_update_action(UpdateAction::ChangeTorrentWindow(TorrentWindow::FileViewer));
    }

    fn show_details_popup(&mut self, hub: &mut Hub)
        requires
            old(self).wf(),
            old(self)@.popup is None,
        ensures
            final(self).wf(),
            (Step { state: final(self)@, hub: final(hub)@, result: ComponentAction::Nothing })
                == (match old(self)@.table.current() {
                Some(i) => Step::stay(
                    TorrentsTabView {
                        popup: Some(CurrentPopupView::Details(old(self)@.table.items[i as int])),
                        ..old(self)@
                    },
                    old(hub)@.with_action(Action::Render),
                ),
                None => Step::stay(old(self)@, old(hub)@),
            }),
    {
        let copy = match self.table_manager.current_torrent() {
            Some(t) => t.duplicate(),
            None => {
                return;
            },
        };
        self.popup_manager.show_popup(CurrentPopup::Details(DetailsPopup::new(copy)), hub);
        hub.send_action(Action::Render);
    }

    fn show_statistics_popup(&mut self, hub: &mut Hub)
        requires
            old(self).wf(),
            old(self)@.popup is None,
        ensures
            final(self).wf(),
            (Step { state: final(self)@, hub: final(hub)@, result: ComponentAction::Nothing })
                == (match old(self)@.bottom.stats {
                Some(stats) => Step::stay(
                    TorrentsTabView { popup: Some(CurrentPopupView::Stats(stats)), ..old(self)@ },
                    old(hub)@.with_action(Action::Render),
                ),
                None => Step::stay(old(self)@, old(hub)@),
            }),
    {
        if let Some(stats) = self.bottom_stats.stats {
            self.popup_manager.show_popup(CurrentPopup::Stats(StatisticsPopup::new(stats)), hub);
            hub.send_action(Action::Render);
        }
    }

    fn pause_current_torrent(&mut self, hub: &mut Hub)
        requires
            old(self).wf(),
        ensures
            final(self).wf(),
            (Step { state: final(self)@, hub: final(hub)@, result: ComponentAction::Nothing })
                == old(self)@.pause_current(old(hub)@),
    {
        if let Some(i) = self.table_manager.current_index() {
            let id = self.table_manager.table.items[i].id;
            let mut ids: Vec<i64> = Vec::new();
            ids.push(id);
            assert(ids@ =~= seq![id]);
            let ghost before = self.table_manager.table.items@;
            if matches!(self.table_manager.table.items[i].status, TorrentStatus::Stopped) {
                hub.send_rpc_action(RpcAction::Start(ids));
                self.table_manager.table.items[i].status = TorrentStatus::Downloading;
            } else {
                hub.send_rpc_action(RpcAction::Stop(ids));
                self.table_manager.table.items[i].status = TorrentStatus::Stopped;
            }
            proof {
                let after = self.table_manager.table.items@;
                assert(after =~= before.update(
                    i as int,
                    Torrent { status: after[i as int].status, ..before[i as int] },
                ));
                self.lemma_names_kept(before);
            }
            hub.send_action(Action::Render);
        }
    }

    proof fn lemma_names_kept(&self, before: Seq<Torrent>)
        requires
            before.len() == self.table_manager.table.items@.len(),
            forall|k: int|
                0 <= k < before.len() ==> (#[trigger] before[k]).name
                    == self.table_manager.table.items@[k].name,
        ensures
            forall|pattern: Seq<char>|
                crate::torrents::table_manager::matching(before, pattern)
                    == #[trigger] crate::torrents::table_manager::matching(
                    self.table_manager.table.items@,
                    pattern,
                ),
    {
        assert forall|pattern: Seq<char>|
            crate::torrents::table_manager::matching(before, pattern)
                == #[trigger] crate::torrents::table_manager::matching(
                self.table_manager.table.items@,
                pattern,
            ) by {
            lemma_matching_by_names(before, self.table_manager.table.items@, pattern);
        }
    }

    fn xdg_open_current_torrent(&self, hub: &mut Hub)
        requires
            self.wf(),
        ensures
            (Step { state: self@, hub: final(hub)@, result: ComponentAction::Nothing })
                == (match self@.table.current() {
                Some(i) => Step::stay(
                    self@,
                    old(hub)@.with_command(
                        CommandView::Open {
                            path: self@.table.items[i as int].location(),
                            target: OpenTarget::TorrentDirectory,
                        },
                    ),
                ),
                None => Step::stay(self@, old(hub)@),
            }),
    {
        if let Some(torrent) = self.table_manager.current_torrent() {
            let path = torrent.torrent_location();
            hub.send_command(Command::Open { path, target: OpenTarget::TorrentDirectory });
        }
    }

    fn idle(&mut self)
        requires
            old(self).wf(),
        ensures
            final(self).wf(),
            final(self)@ == (TorrentsTabView { tasks: old(self)@.idle_tasks(), ..old(self)@ }),
    {
        let count = self.table_manager.selected_torrents_ids.len();
        if count > 0 {
            self.task_manager.select(count);
        } else {
            self.task_manager.default();
        }
    }

    fn handle_verb(&mut self, action: Action, hub: &mut Hub)
        requires
            old(self).wf(),
            old(self)@.popup is None,
        ensures
            final(self).wf(),
            (Step { state: final(self)@, hub: final(hub)@, result: ComponentAction::Nothing })
                == old(self)@.handle_verb(action, old(hub)@),
    {
        proof {
            self.table_manager.lemma_shown_len();
        }
        match action {
            Action::Up => {
                self.table_manager.table.previous();
                self.after_move(hub);
            },
            Action::Down => {
                self.table_manager.table.next();
                self.after_move(hub);
            },
            Action::ScrollUpPage => {
                let by = self.table_manager.torrents_displaying_no as usize;
                self.table_manager.table.scroll_up_by(by);
                self.after_move(hub);
            },
            Action::ScrollDownPage => {
                let by = self.table_manager.torrents_displaying_no as usize;
                self.table_manager.table.scroll_down_by(by);
                self.after_move(hub);
            },
            Action::ScrollUpBy(amount) => {
                self.table_manager.table.scroll_up_by(amount as usize);
                self.after_move(hub);
            },
            Action::ScrollDownBy(amount) => {
                self.table_manager.table.scroll_down_by(amount as usize);
                self.after_move(hub);
            },
            Action::Home => {
                self.table_manager.table.select_first();
                self.after_move(hub);
            },
            Action::End => {
                self.table_manager.table.select_last();
                self.after_move(hub);
            },
            Action::ShowStats => self.show_statistics_popup(hub),
            Action::ShowFiles => self.show_files_popup(hub),
            Action::Confirm => self.show_details_popup(hub),
            Action::Select => {
                self.table_manager.select_current_torrent();
                self.idle();
                hub.send_action(Action::Render);
            },
            Action::Pause => self.pause_current_torrent(hub),
            Action::Delete => {
                if let Some(selection) = self.table_manager.get_currently_selected() {
                    self.task_manager.delete_torrents(selection, hub);
                }
            },
            Action::Rename => {
                if let Some(TorrentSelection::Single(id, curr_name)) =
                    self.table_manager.get_currently_selected() {
                    self.task_manager.rename(id, curr_name, hub);
                }
            },
            Action::AddMagnet => {
                let dir = match &self.download_dir {
                    Some(dir) => dir.clone(),
                    None => String::new(),
                };
                self.task_manager.add_magnet(dir, hub);
            },
            Action::Search => {
                let pattern = match &self.table_manager.filter {
                    Some(f) => Some(f.pattern.clone()),
                    None => None,
                };
                self.task_manager.search(&pattern, hub);
            },
            Action::MoveTorrent => {
                if let Some(selection) = self.table_manager.get_currently_selected() {
                    if let Some(dir) = &self.download_dir {
                        self.task_manager.move_torrent(selection, dir.clone(), hub);
                    }
                }
            },
            Action::ChangeCategory => {
                if let Some(selection) = self.table_manager.get_currently_selected() {
                    self.task_manager.change_category(selection, hub);
                }
            },
            Action::XdgOpen => self.xdg_open_current_torrent(hub),
            Action::MoveToColumnLeft | Action::MoveToColumnRight => {
                self.table_manager.enter_sorting_selection();
                self.task_manager.sort();
                hub.send_action(Action::Render);
            },
            other => {
                let _ = self.task_manager.handle_actions(other, hub);
            },
        }
    }

    /// Whether the tab can take the action: whether the popup on show, if
    /// there is one, can.
    pub fn admits(&self, action: Action) -> (admitted: bool)
        ensures
            admitted == slot_admits(self@.popup, action),
    {
        self.popup_manager.admits(action)
    }

    /// Handles one action that the popup on show, if there is one, admits.
    /// The tab itself never asks to be closed.
    pub fn handle_actions(&mut self, action: Action, hub: &mut Hub) -> (result: ComponentAction)
        requires
            old(self).wf(),
            slot_admits(old(self)@.popup, action),
        ensures
            final(self).wf(),
            (Step { state: final(self)@, hub: final(hub)@, result }) == old(self)@.handle(
                action,
                old(hub)@,
            ),
    {
        if self.popup_manager.is_showing_popup() {
            let _ = self.popup_manager.handle_actions(action, hub);
            return ComponentAction::Nothing;
        }
        if self.table_manager.sorting_is_being_selected {
            self.handle_sorting(action, hub);
            return ComponentAction::Nothing;
        }
        if self.table_manager.selected_torrents_ids.len() > 0 && action.is_soft_quit() {
            self.table_manager.clear_selection();
            self.task_manager.default();
            hub.send_action(Action::Render);
            return ComponentAction::Nothing;
        }
        if action.is_quit() {
            hub.send_action(Action::HardQuit);
            return ComponentAction::Nothing;
        }
        self.handle_verb(action, hub);
        ComponentAction::Nothing
    }

    /// Applies one update. Fresh metadata of one torrent goes to the files
    /// popup; what the tab does with any other update is `update`.
    pub fn handle_update_action(&mut self, action: UpdateAction, hub: &mut Hub)
        requires
            old(self).wf(),
        ensures
            final(self).wf(),
            match action {
                UpdateAction::UpdateCurrentTorrent(_) => {
                    &&& final(hub)@ == old(hub)@
                    &&& final(self).table_manager == old(self).table_manager
                    &&& final(self).task_manager == old(self).task_manager
                    &&& final(self).bottom_stats == old(self).bottom_stats
                    &&& final(self).current_window == old(self).current_window
                    &&& final(self).download_dir == old(self).download_dir
                    &&& final(self).next_token == old(self).next_token
                    &&& refreshed(old(self).popup_manager, final(self).popup_manager, action)
                },
                _ => (Step {
                    state: final(self)@,
                    hub: final(hub)@,
                    result: ComponentAction::Nothing,
                }) == old(self)@.update(action@, old(hub)@),
            },
    {
        proof {
            self.table_manager.lemma_shown_len();
        }
        match action {
            UpdateAction::ChangeTorrentWindow(window) => {
                self.current_window = window;
            },
            UpdateAction::SessionStats(stats) => {
                if let Some(CurrentPopup::Stats(popup)) = &mut self.popup_manager.current_popup {
                    popup.update_stats(&stats);
                }
                self.bottom_stats.set_stats(stats);
            },
            UpdateAction::FreeSpace(free_space) => {
                self.bottom_stats.set_free_space(free_space);
            },
            UpdateAction::SearchFilterApply(filter) => {
                self.table_manager.set_filter(filter);
                self.refresh_indicator();
            },
            UpdateAction::SearchFilterClear => {
                self.table_manager.clear_filter();
                self.refresh_indicator();
            },
            UpdateAction::UpdateTorrents(torrents) => {
                self.table_manager.set_new_rows(torrents);
                self.refresh_indicator();
                if self.table_manager.selected_torrents_ids.len() == 0
                    && self.task_manager.is_selection_task() {
                    self.task_manager.default();
                }
            },
            UpdateAction::UpdateCurrentTorrent(_) => {
                self.popup_manager.handle_update_action(action);
            },
            UpdateAction::CancelTorrentTask => {
                if self.task_manager.is_status_task_in_progress() {
                    return;
                }
                self.idle();
                hub.send_update_action(UpdateAction::SwitchToNormalMode);
            },
            other => self.task_manager.handle_update_action(other, hub),
        }
    }

    /// One tick of the main loop.
    pub fn tick(&mut self, hub: &mut Hub)
        requires
            old(self).wf(),
        ensures
            final(self).wf(),
            (Step { state: final(self)@, hub: final(hub)@, result: ComponentAction::Nothing })
                == old(self)@.with_tasks(old(self)@.tasks.tick(old(hub)@)),
    {
        self.task_manager.tick(hub);
    }

    /// How many rows, from the scroll offset on, fit into `height` lines,
    /// where a torrent with a complaint takes two lines. A row that only
    /// fits in part still counts.
    pub open spec fn rows_fitting(items: Seq<Torrent>, from: int, height: int) -> nat
        decreases items.len() - from,
    {
        if from < 0 || from >= items.len() || height <= 0 {
            0
        } else {
            1 + Self::rows_fitting(
                items,
                from + 1,
                height - (if items[from].error is Some {
                    2int
                } else {
                    1int
                }),
            )
        }
    }

    /// Works out how many rows the table area of `height` lines shows, and
    /// keeps the number for paging.
    pub fn measure_rows(&mut self, height: u16)
        requires
            old(self).wf(),
        ensures
            final(self).wf(),
            final(self)@ == (TorrentsTabView {
                table: TableView {
                    displaying_no: (if Self::rows_fitting(
                        old(self)@.table.items,
                        old(self)@.table.offset as int,
                        height as int,
                    ) > u16::MAX {
                        u16::MAX
                    } else {
                        Self::rows_fitting(
                            old(self)@.table.items,
                            old(self)@.table.offset as int,
                            height as int,
                        ) as u16
                    }),
                    ..old(self)@.table
                },
                ..old(self)@
            }),
    {
        let offset = self.table_manager.table.offset;
        let mut torrents_displaying_no: u16 = 0;
        let mut space_left: u16 = height;
        let mut i: usize = offset;
        let ghost items = self.table_manager.table.items@;
        let ghost total = Self::rows_fitting(items, offset as int, height as int);
        while i < self.table_manager.table.items.len() && space_left > 0
            && torrents_displaying_no < u16::MAX
            invariant
                *self == *old(self),
                items == self.table_manager.table.items@,
                offset <= i,
                total == torrents_displaying_no + Self::rows_fitting(
                    items,
                    i as int,
                    space_left as int,
                ),
            decreases self.table_manager.table.items@.len() - i,
        {
            if self.table_manager.table.items[i].error.is_some() {
                proof {
                    if space_left == 1 {
                        assert(Self::rows_fitting(items, i + 1, -1) == 0);
                    }
                }
                space_left = space_left.saturating_sub(2);
            } else {
                space_left = space_left - 1;
            }
            torrents_displaying_no = torrents_displaying_no + 1;
            i = i + 1;
        }
        self.table_manager.torrents_displaying_no = torrents_displaying_no;
    }
}

/// Which rows a pattern lets through depends on their names alone.
pub proof fn lemma_matching_by_names(a: Seq<Torrent>, b: Seq<Torrent>, pattern: Seq<char>)
    requires
        a.len() == b.len(),
        forall|k: int| 0 <= k < a.len() ==> (#[trigger] a[k]).name == b[k].name,
    ensures
        crate::torrents::table_manager::matching(a, pattern)
            == crate::torrents::table_manager::matching(b, pattern),
    decreases a.len(),
{
    if a.len() > 0 {
        assert forall|k: int| 0 <= k < a.drop_last().len() implies (#[trigger] a.drop_last()[k]).name
            == b.drop_last()[k].name by {
            assert(a.drop_last()[k] == a[k]);
        }
        lemma_matching_by_names(a.drop_last(), b.drop_last(), pattern);
        assert(a.last() == a[a.len() - 1]);
    }
}

/// The keyboard has one taker at a time. While a popup is on show, every
/// action goes to it: the foreground task and the table stay exactly as
/// they are. While none is on show, a key press never opens one: it goes
/// to the foreground task and to nothing else, unless a sort column is
/// being chosen, which takes no key presses at all.
pub proof fn lemma_one_taker(tab: TorrentsTabView, action: Action, hub: HubView)
    ensures
        ({
            let s = tab.handle(action, hub);
            &&& tab.popup is Some ==> s.state == (TorrentsTabView { popup: s.state.popup, ..tab })
                && s.state.popup == slot_handle(tab.popup, action, hub).state && s.hub
                == slot_handle(tab.popup, action, hub).hub
            &&& tab.popup is None && action is Input ==> s.state.popup is None && (
            if tab.table.sorting {
                s.state == tab && s.hub == hub
            } else {
                s.state == (TorrentsTabView { tasks: tab.tasks.handle(action, hub).state, ..tab })
                    && s.hub == tab.tasks.handle(action, hub).hub
            })
        }),
{
}

/// Clearing the filter when none is set leaves the rows, the rows on
/// show and their number as they are, sends nothing, and doing it again
/// changes nothing at all.
pub proof fn lemma_clear_without_filter(tab: TorrentsTabView, hub: HubView)
    requires
        tab.table.pattern is None,
    ensures
        ({
            let once = tab.update(UpdateActionView::SearchFilterClear, hub);
            let twice = once.state.update(UpdateActionView::SearchFilterClear, once.hub);
            &&& once.state.table.items == tab.table.items
            &&& once.state.table.shown() == tab.table.shown()
            &&& once.state.table.shown().len() == tab.table.items.len()
            &&& once.state.table.pattern is None
            &&& once.state.table.selected_ids == tab.table.selected_ids
            &&& once.state.tasks == tab.tasks
            &&& once.state.popup == tab.popup
            &&& once.hub == hub
            &&& twice == once
        }),
{
}

} // verus!
