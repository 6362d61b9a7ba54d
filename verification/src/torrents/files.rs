//! The files popup of one torrent, and the priority selector nested in it.

use vstd::prelude::*;
use vstd::string::*;
use crate::action::{Action, ComponentAction};
use crate::component::Step;
use crate::hub::{Hub, HubView};
use crate::messages::{
    Command, CommandView, FieldPatch, FieldPatchView, OpenTarget, Poller, Priority, RpcAction,
    RpcActionView, TorrentInfo, TreeMotion, UpdateAction,
};
use crate::text_index::{parse_index, parsed_index};
use crate::torrents::tree::{
    directory_views, root_directory, texts, DirectoryView, Node, TransmissionFile,
};

verus! {

/// The priority one step up the list on screen (Low is at the top).
pub open spec fn priority_above(p: Priority) -> Priority {
    match p {
        Priority::High => Priority::Normal,
        _ => Priority::Low,
    }
}

/// The priority one step down the list on screen (High is at the bottom).
pub open spec fn priority_below(p: Priority) -> Priority {
    match p {
        Priority::Low => Priority::Normal,
        _ => Priority::High,
    }
}

/// The change that gives the files the priority.
pub open spec fn priority_patch(p: Priority, files: Seq<usize>) -> FieldPatchView {
    match p {
        Priority::Low => FieldPatchView::PriorityLow(files),
        Priority::Normal => FieldPatchView::PriorityNormal(files),
        Priority::High => FieldPatchView::PriorityHigh(files),
    }
}

/// The selector for the priority of some files of one torrent.
pub struct PriorityPopup {
    pub torrent_id: i64,
    pub files: Vec<usize>,
    /// The entry under the cursor.
    pub selected: Priority,
}

pub struct PriorityPopupView {
    pub torrent_id: i64,
    pub files: Seq<usize>,
    pub selected: Priority,
}

impl View for PriorityPopup {
    type V = PriorityPopupView;

    open spec fn view(&self) -> PriorityPopupView {
        PriorityPopupView {
            torrent_id: self.torrent_id,
            files: self.files@,
            selected: self.selected,
        }
    }
}

impl PriorityPopupView {
    /// What the selector does with an action. A quit or `Close` closes it.
    /// Up and Down move the cursor, with a redraw. Confirm requests the
    /// priority under the cursor for the files, asks for a redraw and
    /// closes. No other action concerns it.
    pub open spec fn handle(self, action: Action, hub: HubView) -> Step<PriorityPopupView> {
        if action.is_soft_quit() {
            Step::quit(self, hub)
        } else {
            match action {
                Action::Up => Step::stay(
                    PriorityPopupView { selected: priority_above(self.selected), ..self },
                    hub.with_action(Action::Render),
                ),
                Action::Down => Step::stay(
                    PriorityPopupView { selected: priority_below(self.selected), ..self },
                    hub.with_action(Action::Render),
                ),
                Action::Confirm => Step::quit(
                    self,
                    hub.with_request(
                        RpcActionView::SetArgs {
                            ids: seq![self.torrent_id],
                            patch: priority_patch(self.selected, self.files),
                        },
                    ).with_action(Action::Render),
                ),
                _ => Step::stay(self, hub),
            }
        }
    }
}

impl PriorityPopup {
    /// A selector for the given files, with the cursor on Normal.
    pub fn new(torrent_id: i64, files: Vec<usize>) -> (popup: PriorityPopup)
        ensures
            popup@ == (PriorityPopupView { torrent_id, files: files@, selected: Priority::Normal }),
    {
        PriorityPopup { torrent_id, files, selected: Priority::Normal }
    }

    pub fn handle_actions(&mut self, action: Action, hub: &mut Hub) -> (result: ComponentAction)
        ensures
            (Step { state: final(self)@, hub: final(hub)@, result }) == old(self)@.handle(
                action,
                old(hub)@,
            ),
    {
        if action.is_soft_quit() {
            return ComponentAction::Quit;
        }
        match action {
            Action::Up => {
                self.selected = match self.selected {
                    Priority::High => Priority::Normal,
                    _ => Priority::Low,
                };
                hub.send_action(Action::Render);
                ComponentAction::Nothing
            },
            Action::Down => {
                self.selected = match self.selected {
                    Priority::Low => Priority::Normal,
                    _ => Priority::High,
                };
                hub.send_action(Action::Render);
                ComponentAction::Nothing
            },
            Action::Confirm => {
                let files = self.files.clone();
                assert(files@ =~= self.files@);
                let patch = match self.selected {
                    Priority::Low => FieldPatch::PriorityLow(files),
                    Priority::Normal => FieldPatch::PriorityNormal(files),
                    Priority::High => FieldPatch::PriorityHigh(files),
                };
                let mut ids: Vec<i64> = Vec::new();
                ids.push(self.torrent_id);
                assert(ids@ =~= seq![self.torrent_id]);
                hub.send_rpc_action(RpcAction::SetArgs { ids, patch });
                hub.send_action(Action::Render);
                ComponentAction::Quit
            },
            _ => ComponentAction::Nothing,
        }
    }
}

/// Which part of the files popup has the keyboard.
#[derive(Clone, Copy, Debug, PartialEq, Eq, Structural)]
pub enum CurrentFocus {
    CloseButton,
    Files,
}

/// The ids of existing files among the segments of the selected entry's
/// identifier: each segment that spells the id of one of the `files` files,
/// in order.
pub open spec fn selected_ids(selected: Seq<Seq<char>>, files: nat) -> Seq<usize>
    decreases selected.len(),
{
    if selected.len() == 0 {
        Seq::empty()
    } else {
        let before = selected_ids(selected.drop_last(), files);
        match parsed_index(selected.last()) {
            Some(id) => if id < files {
                before.push(id)
            } else {
                before
            },
            None => before,
        }
    }
}

/// Every id among the selected ones names a file.
pub proof fn lemma_selected_ids_exist(selected: Seq<Seq<char>>, files: nat)
    ensures
        forall|k: int|
            0 <= k < selected_ids(selected, files).len() ==> #[trigger] selected_ids(
                selected,
                files,
            )[k] < files,
    decreases selected.len(),
{
    if selected.len() > 0 {
        lemma_selected_ids_exist(selected.drop_last(), files);
        let before = selected_ids(selected.drop_last(), files);
        let all = selected_ids(selected, files);
        assert forall|k: int| 0 <= k < all.len() implies #[trigger] all[k] < files by {
            if k < before.len() {
                assert(all[k] == before[k]);
            }
        }
    }
}

/// Whether the segment, if it spells a number, spells the id of one of the
/// `files` files.
pub open spec fn names_file(segment: Seq<char>, files: nat) -> bool {
    parsed_index(segment) matches Some(id) ==> id < files
}

/// Whether every segment that spells a number spells the id of a file.
pub open spec fn names_files(selected: Seq<Seq<char>>, files: nat) -> bool {
    forall|k: int| 0 <= k < selected.len() ==> names_file(#[trigger] selected[k], files)
}

/// How many more of the files `ids` are wanted than are not; an id counts
/// as often as it is listed.
pub open spec fn wanted_balance(items: Seq<TransmissionFile>, ids: Seq<usize>) -> int
    decreases ids.len(),
{
    if ids.len() == 0 {
        0
    } else {
        wanted_balance(items, ids.drop_last()) + (if items[ids.last() as int].wanted {
            1int
        } else {
            -1int
        })
    }
}

/// The files with the flag of each file among `ids` set to `wanted`.
pub open spec fn with_wanted(items: Seq<TransmissionFile>, ids: Seq<usize>, wanted: bool) -> Seq<
    TransmissionFile,
> {
    Seq::new(
        items.len(),
        |f: int|
            if ids.contains(f as usize) {
                TransmissionFile { wanted, ..items[f] }
            } else {
                items[f]
            },
    )
}

/// The files after the selection was toggled: if more of the selected are
/// wanted than not, none of them is wanted any more; else all of them are.
pub open spec fn toggled(items: Seq<TransmissionFile>, ids: Seq<usize>) -> Seq<TransmissionFile> {
    with_wanted(items, ids, !(wanted_balance(items, ids) > 0))
}

/// The segments with a slash between each two.
pub open spec fn joined(segments: Seq<Seq<char>>) -> Seq<char>
    decreases segments.len(),
{
    if segments.len() == 0 {
        Seq::empty()
    } else if segments.len() == 1 {
        segments[0]
    } else {
        joined(segments.drop_last()) + seq!['/'] + segments.last()
    }
}

/// The identifier of the selected entry with its last segment, where that
/// is a file's id, replaced by the file's name.
pub open spec fn named(selected: Seq<Seq<char>>, items: Seq<TransmissionFile>) -> Seq<Seq<char>> {
    match parsed_index(selected.last()) {
        Some(id) => if id < items.len() {
            selected.drop_last().push(items[id as int].name@)
        } else {
            selected
        },
        None => selected,
    }
}

/// The segments with the last one replaced, if a replacement is given.
pub open spec fn with_last(segments: Seq<Seq<char>>, replacement: Option<String>) -> Seq<
    Seq<char>,
> {
    match replacement {
        Some(name) => segments.drop_last().push(name@),
        None => segments,
    }
}

pub struct FilesPopup {
    /// The metadata last received, if any was.
    pub torrent: Option<TorrentInfo>,
    pub torrent_id: i64,
    pub priority_popup: Option<PriorityPopup>,
    /// The identifier of the entry under the cursor of the tree on screen:
    /// the names of its directories and, for a file, its id in decimal.
    pub selected: Vec<String>,
    /// The files as shown: as last received, with the flags that the user
    /// has flipped since.
    pub tree: Node,
    pub current_focus: CurrentFocus,
    pub switched_after_fetched_data: bool,
    /// The token of the job that refreshes the metadata, while it runs.
    pub poller: Option<u64>,
}

pub struct FilesPopupView {
    pub torrent: Option<TorrentInfo>,
    pub torrent_id: i64,
    pub priority_popup: Option<PriorityPopupView>,
    pub selected: Seq<Seq<char>>,
    pub directories: Seq<DirectoryView>,
    pub items: Seq<TransmissionFile>,
    pub current_focus: CurrentFocus,
    pub switched_after_fetched_data: bool,
    pub poller: Option<u64>,
}

impl View for FilesPopup {
    type V = FilesPopupView;

    open spec fn view(&self) -> FilesPopupView {
        FilesPopupView {
            torrent: self.torrent,
            torrent_id: self.torrent_id,
            priority_popup: match self.priority_popup {
                Some(p) => Some(p@),
                None => None,
            },
            selected: texts(self.selected@),
            directories: directory_views(self.tree.directories@),
            items: self.tree.items@,
            current_focus: self.current_focus,
            switched_after_fetched_data: self.switched_after_fetched_data,
            poller: self.poller,
        }
    }
}

impl FilesPopupView {
    /// The popup as it opens: nothing but the root in the tree, the focus
    /// on the close button, and the refresh job under the token.
    pub open spec fn opened(torrent_id: i64, token: u64) -> FilesPopupView {
        FilesPopupView {
            torrent: None,
            torrent_id,
            priority_popup: None,
            selected: Seq::empty(),
            directories: seq![root_directory()],
            items: Seq::empty(),
            current_focus: CurrentFocus::CloseButton,
            switched_after_fetched_data: false,
            poller: Some(token),
        }
    }

    /// The ids of the files that the selected entry names.
    pub open spec fn ids(self) -> Seq<usize> {
        selected_ids(self.selected, self.items.len())
    }

    /// The popup closes: its refresh job, if it still runs, is aborted.
    pub open spec fn closed(self, hub: HubView) -> Step<FilesPopupView> {
        Step::quit(
            FilesPopupView { poller: None, ..self },
            match self.poller {
                Some(token) => hub.with_command(CommandView::Abort { token }),
                None => hub,
            },
        )
    }

    /// Select or Confirm on the tree. Before any metadata has come nothing
    /// happens. An entry that names no file is a directory: it is opened or
    /// closed on screen. Else the files named are toggled, at once in the
    /// tree shown and by a request to the daemon.
    pub open spec fn toggle_wanted(self, hub: HubView) -> Step<FilesPopupView> {
        if self.torrent is None {
            Step::stay(self, hub)
        } else if self.ids().len() == 0 {
            Step::stay(
                self,
                hub.with_command(CommandView::Tree(TreeMotion::Toggle)).with_action(Action::Render),
            )
        } else {
            Step::stay(
                FilesPopupView { items: toggled(self.items, self.ids()), ..self },
                hub.with_request(
                    RpcActionView::SetArgs {
                        ids: seq![self.torrent_id],
                        patch: if wanted_balance(self.items, self.ids()) > 0 {
                            FieldPatchView::FilesUnwanted(self.ids())
                        } else {
                            FieldPatchView::FilesWanted(self.ids())
                        },
                    },
                ).with_action(Action::Render),
            )
        }
    }

    /// The path on disk of the selected entry: the download directory, then
    /// the entry's directories and its name.
    pub open spec fn selected_path(self) -> Seq<char> {
        self.torrent->0.download_dir@ + seq!['/'] + joined(named(self.selected, self.items))
    }

    /// The desktop is asked to open the selected entry, if there is one and
    /// the metadata has come.
    pub open spec fn open_selected(self, hub: HubView) -> Step<FilesPopupView> {
        if self.torrent is None || self.selected.len() == 0 {
            Step::stay(self, hub)
        } else {
            Step::stay(
                self,
                hub.with_command(
                    CommandView::Open { path: self.selected_path(), target: OpenTarget::File },
                ),
            )
        }
    }

    /// A move of the cursor in the tree on screen, with a redraw.
    pub open spec fn moved(self, motion: TreeMotion, hub: HubView) -> Step<FilesPopupView> {
        Step::stay(self, hub.with_command(CommandView::Tree(motion)).with_action(Action::Render))
    }

    /// What the popup does with an action. While the priority selector is
    /// open, every action goes to it, and its closing is all that can come
    /// of one. Else a quit or `Close` closes the popup, and so does Confirm
    /// on the close button; the focus changes on demand; with the focus on
    /// the tree, the cursor moves, the selection is toggled or opened, and
    /// the priority selector opens for the selected files.
    pub open spec fn handle(self, action: Action, hub: HubView) -> Step<FilesPopupView> {
        match self.priority_popup {
            Some(p) => {
                let s = p.handle(action, hub);
                if s.result is Quit {
                    Step::stay(
                        FilesPopupView { priority_popup: None, ..self },
                        s.hub.with_action(Action::Render),
                    )
                } else {
                    Step::stay(FilesPopupView { priority_popup: Some(s.state), ..self }, s.hub)
                }
            },
            None => if action.is_soft_quit() {
                self.closed(hub)
            } else if action is ChangeFocus {
                Step::stay(
                    FilesPopupView {
                        current_focus: match self.current_focus {
                            CurrentFocus::CloseButton => CurrentFocus::Files,
                            CurrentFocus::Files => CurrentFocus::CloseButton,
                        },
                        ..self
                    },
                    hub.with_action(Action::Render),
                )
            } else if self.current_focus is CloseButton {
                if action is Confirm {
                    self.closed(hub)
                } else {
                    Step::stay(self, hub)
                }
            } else {
                match action {
                    Action::ChangeFilePriority => Step::stay(
                        FilesPopupView {
                            priority_popup: Some(
                                PriorityPopupView {
                                    torrent_id: self.torrent_id,
                                    files: self.ids(),
                                    selected: Priority::Normal,
                                },
                            ),
                            ..self
                        },
                        hub.with_action(Action::Render),
                    ),
                    Action::Select => self.toggle_wanted(hub),
                    Action::Confirm => self.toggle_wanted(hub),
                    Action::Up => self.moved(TreeMotion::Up, hub),
                    Action::ScrollUpBy(_) => self.moved(TreeMotion::Up, hub),
                    Action::Down => self.moved(TreeMotion::Down, hub),
                    Action::ScrollDownBy(_) => self.moved(TreeMotion::Down, hub),
                    Action::XdgOpen => self.open_selected(hub),
                    _ => Step::stay(self, hub),
                }
            },
        }
    }

    /// Whether the metadata is of this popup's torrent and has a flag and a
    /// priority for each of its files.
    pub open spec fn accepts(self, torrent: &TorrentInfo) -> bool {
        torrent.id == self.torrent_id && torrent.wf()
    }

    /// Whether the popup can take the action. Toggling asks of the selected
    /// entry that every segment of its identifier that spells a number is
    /// the id of a file, and opening asks that of the last segment; so they
    /// do once the metadata is there, the focus is on the tree and no
    /// priority selector is open. Every other action can always be taken.
    pub open spec fn admits(self, action: Action) -> bool {
        self.torrent is Some && self.priority_popup is None && self.current_focus is Files ==> {
            &&& action is Select || action is Confirm ==> names_files(
                self.selected,
                self.items.len(),
            )
            &&& action is XdgOpen && self.selected.len() > 0 ==> names_file(
                self.selected.last(),
                self.items.len(),
            )
        }
    }
}

impl FilesPopup {
    pub open spec fn wf(&self) -> bool {
        self.tree.wf()
    }

    /// A popup for the torrent, still without metadata, and the start of
    /// the job that fetches it, under the given token.
    pub fn new(torrent_id: i64, token: u64, hub: &mut Hub) -> (popup: FilesPopup)
        ensures
            popup.wf(),
            popup@ == FilesPopupView::opened(torrent_id, token),
            final(hub)@ == old(hub)@.with_command(
                CommandView::Spawn { token, poller: Poller::TorrentFiles { torrent_id } },
            ),
    {
        hub.send_command(Command::Spawn { token, poller: Poller::TorrentFiles { torrent_id } });
        let popup = FilesPopup {
            torrent: None,
            torrent_id,
            priority_popup: None,
            selected: Vec::new(),
            tree: Node::new(),
            current_focus: CurrentFocus::CloseButton,
            switched_after_fetched_data: false,
            poller: Some(token),
        };
        assert(popup@.selected =~= Seq::<Seq<char>>::empty());
        assert(popup@.items =~= Seq::<TransmissionFile>::empty());
        popup
    }

    /// Takes over the identifier of the entry under the cursor from the
    /// tree on screen.
    pub fn set_selected(&mut self, selected: Vec<String>)
        ensures
            final(self)@ == (FilesPopupView { selected: texts(selected@), ..old(self)@ }),
            final(self).tree == old(self).tree,
    {
        self.selected = selected;
    }

    fn switch_focus(&mut self)
        ensures
            final(self)@ == (FilesPopupView {
                current_focus: match old(self)@.current_focus {
                    CurrentFocus::CloseButton => CurrentFocus::Files,
                    CurrentFocus::Files => CurrentFocus::CloseButton,
                },
                ..old(self)@
            }),
            final(self).tree == old(self).tree,
    {
        match self.current_focus {
            CurrentFocus::CloseButton => self.current_focus = CurrentFocus::Files,
            CurrentFocus::Files => self.current_focus = CurrentFocus::CloseButton,
        }
    }

    /// The ids of the files that the selected entry names.
    pub fn selected_ids(&self) -> (ids: Vec<usize>)
        ensures
            ids@ == self@.ids(),
    {
        let mut ids: Vec<usize> = Vec::new();
        let mut k: usize = 0;
        let ghost all = texts(self.selected@);
        assert(all.take(0) =~= Seq::<Seq<char>>::empty());
        while k < self.selected.len()
            invariant
                0 <= k <= self.selected@.len(),
                all == texts(self.selected@),
                ids@ == selected_ids(all.take(k as int), self.tree.items@.len()),
            decreases self.selected@.len() - k,
        {
            assert(all.take(k + 1).drop_last() =~= all.take(k as int));
            assert(all.take(k + 1).last() == self.selected@[k as int]@);
            match parse_index(self.selected[k].as_str()) {
                Some(id) => {
                    if id < self.tree.items.len() {
                        ids.push(id);
                    }
                },
                None => {},
            }
            k = k + 1;
        }
        assert(all.take(self.selected@.len() as int) =~= all);
        ids
    }

    fn abort_poller(&mut self, hub: &mut Hub)
        ensures
            (Step { state: final(self)@, hub: final(hub)@, result: ComponentAction::Quit })
                == old(self)@.closed(old(hub)@),
            final(self).tree == old(self).tree,
    {
        match self.poller {
            Some(token) => {
                hub.send_command(Command::Abort { token });
            },
            None => {},
        }
        self.poller = None;
    }

    fn balance(&self, ids: &Vec<usize>) -> (any_more_wanted: bool)
        requires
            forall|k: int| 0 <= k < ids@.len() ==> #[trigger] ids@[k] < self.tree.items@.len(),
        ensures
            any_more_wanted == (wanted_balance(self.tree.items@, ids@) > 0),
    {
        let mut balance: i128 = 0;
        let mut k: usize = 0;
        assert(ids@.take(0) =~= Seq::<usize>::empty());
        while k < ids.len()
            invariant
                0 <= k <= ids@.len(),
                forall|j: int| 0 <= j < ids@.len() ==> #[trigger] ids@[j] < self.tree.items@.len(),
                balance == wanted_balance(self.tree.items@, ids@.take(k as int)),
                -k <= balance <= k,
            decreases ids@.len() - k,
        {
            assert(ids@.take(k + 1).drop_last() =~= ids@.take(k as int));
            assert(ids@.take(k + 1).last() == ids@[k as int]);
            if self.tree.items[ids[k]].wanted {
                balance = balance + 1;
            } else {
                balance = balance - 1;
            }
            k = k + 1;
        }
        assert(ids@.take(ids@.len() as int) =~= ids@);
        balance > 0
    }

    fn toggle_wanted(&mut self, hub: &mut Hub)
        requires
            old(self).wf(),
        ensures
            final(self).wf(),
            (Step { state: final(self)@, hub: final(hub)@, result: ComponentAction::Nothing })
                == old(self)@.toggle_wanted(old(hub)@),
    {
        if self.torrent.is_none() {
            return;
        }
        let selected_ids = self.selected_ids();
        if selected_ids.len() == 0 {
            hub.send_command(Command::Tree(TreeMotion::Toggle));
            hub.send_action(Action::Render);
            return;
        }
        proof {
            lemma_selected_ids_exist(self@.selected, self@.items.len());
        }
        let unwant = self.balance(&selected_ids);
        self.tree.set_wanted(&selected_ids, !unwant);
        assert(self.tree.items@ =~= toggled(old(self)@.items, old(self)@.ids()));
        let patch = if unwant {
            FieldPatch::FilesUnwanted(selected_ids)
        } else {
            FieldPatch::FilesWanted(selected_ids)
        };
        let mut ids: Vec<i64> = Vec::new();
        ids.push(self.torrent_id);
        assert(ids@ =~= seq![self.torrent_id]);
        hub.send_rpc_action(RpcAction::SetArgs { ids, patch });
        hub.send_action(Action::Render);
    }

    fn join(segments: &Vec<String>, replaced_last: &Option<String>) -> (path: String)
        requires
            segments@.len() >= 1,
        ensures
            path@ == joined(with_last(texts(segments@), *replaced_last)),
    {
        let ghost all = with_last(texts(segments@), *replaced_last);
        let mut path = String::new();
        let mut k: usize = 0;
        assert(all.take(0) =~= Seq::<Seq<char>>::empty());
        while k < segments.len()
            invariant
                0 <= k <= segments@.len(),
                segments@.len() >= 1,
                all.len() == segments@.len(),
                all == with_last(texts(segments@), *replaced_last),
                path@ == joined(all.take(k as int)),
            decreases segments@.len() - k,
        {
            assert(all.take(k + 1).drop_last() =~= all.take(k as int));
            assert(all.take(k + 1).last() == all[k as int]);
            if k > 0 {
                path.append("/");
                proof {
                    reveal_strlit("/");
                }
                assert("/"@ =~= seq!['/']);
            }
            if k + 1 == segments.len() {
                match replaced_last {
                    Some(name) => path.append(name.as_str()),
                    None => path.append(segments[k].as_str()),
                }
            } else {
                path.append(segments[k].as_str());
            }
            assert(path@ =~= joined(all.take(k + 1))) by {
                if k == 0 {
                    assert(all.take(1).len() == 1);
                    assert(joined(all.take(0)) =~= Seq::<char>::empty());
                }
            }
            k = k + 1;
        }
        assert(all.take(segments@.len() as int) =~= all);
        path
    }

    fn open_selected(&self, hub: &mut Hub)
        ensures
            (Step { state: self@, hub: final(hub)@, result: ComponentAction::Nothing })
                == self@.open_selected(old(hub)@),
    {
        if let Some(torrent) = &self.torrent {
            if self.selected.len() == 0 {
                return;
            }
            let last = &self.selected[self.selected.len() - 1];
            assert(texts(self.selected@).last() == last@);
            let replaced: Option<String> = match parse_index(last.as_str()) {
                Some(id) => self.tree.file_name(id),
                None => None,
            };
            let rest = Self::join(&self.selected, &replaced);
            let mut path = torrent.download_dir.clone();
            proof {
                reveal_strlit("/");
            }
            path.append("/");
            path.append(rest.as_str());
            assert(path@ =~= self@.selected_path());
            hub.send_command(Command::Open { path, target: OpenTarget::File });
        }
    }

    fn names_file(&self, segment: &String) -> (known: bool)
        ensures
            known == names_file(segment@, self.tree.items@.len()),
    {
        match parse_index(segment.as_str()) {
            Some(id) => id < self.tree.items.len(),
            None => true,
        }
    }

    /// Whether the popup can take the action: see `FilesPopupView::admits`.
    pub fn admits(&self, action: Action) -> (admitted: bool)
        ensures
            admitted == self@.admits(action),
    {
        if self.torrent.is_none() || self.priority_popup.is_some() || !matches!(
            self.current_focus,
            CurrentFocus::Files
        ) {
            return true;
        }
        let ghost all = texts(self.selected@);
        match action {
            Action::Select | Action::Confirm => {
                let mut k: usize = 0;
                while k < self.selected.len()
                    invariant
                        0 <= k <= self.selected@.len(),
                        all == texts(self.selected@),
                        self@.torrent is Some,
                        self@.priority_popup is None,
                        self@.current_focus is Files,
                        action is Select || action is Confirm,
                        forall|j: int|
                            0 <= j < k ==> names_file(#[trigger] all[j], self.tree.items@.len()),
                    decreases self.selected@.len() - k,
                {
                    assert(all[k as int] == self.selected@[k as int]@);
                    if !self.names_file(&self.selected[k]) {
                        return false;
                    }
                    k = k + 1;
                }
                true
            },
            Action::XdgOpen => {
                if self.selected.len() == 0 {
                    return true;
                }
                let last = &self.selected[self.selected.len() - 1];
                assert(all.last() == last@);
                self.names_file(last)
            },
            _ => true,
        }
    }

    /// Handles one action that the popup admits.
    pub fn handle_actions(&mut self, action: Action, hub: &mut Hub) -> (result: ComponentAction)
        requires
            old(self).wf(),
            old(self)@.admits(action),
        ensures
            final(self).wf(),
            (Step { state: final(self)@, hub: final(hub)@, result }) == old(self)@.handle(
                action,
                old(hub)@,
            ),
    {
        if let Some(priority_popup) = &mut self.priority_popup {
            if priority_popup.handle_actions(action, hub).is_quit() {
                self.priority_popup = None;
                hub.send_action(Action::Render);
            }
            return ComponentAction::Nothing;
        }
        if action.is_soft_quit() {
            self.abort_poller(hub);
            return ComponentAction::Quit;
        }
        if matches!(action, Action::ChangeFocus) {
            self.switch_focus();
            hub.send_action(Action::Render);
            return ComponentAction::Nothing;
        }
        if matches!(self.current_focus, CurrentFocus::CloseButton) {
            if matches!(action, Action::Confirm) {
                self.abort_poller(hub);
                return ComponentAction::Quit;
            }
            return ComponentAction::Nothing;
        }
        match action {
            Action::ChangeFilePriority => {
                self.priority_popup = Some(
                    PriorityPopup::new(self.torrent_id, self.selected_ids()),
                );
                hub.send_action(Action::Render);
            },
            Action::Select | Action::Confirm => {
                self.toggle_wanted(hub);
            },
            Action::Up | Action::ScrollUpBy(_) => {
                hub.send_command(Command::Tree(TreeMotion::Up));
                hub.send_action(Action::Render);
            },
            Action::Down | Action::ScrollDownBy(_) => {
                hub.send_command(Command::Tree(TreeMotion::Down));
                hub.send_action(Action::Render);
            },
            Action::XdgOpen => {
                self.open_selected(hub);
            },
            _ => (),
        }
        ComponentAction::Nothing
    }

    /// Takes in fresh metadata: the tree is built anew from it, and the
    /// flags flipped since the last one are forgotten. Metadata of another
    /// torrent, or with fewer flags or priorities than files, is passed over,
    /// and so is every other update.
    pub fn handle_update_action(&mut self, action: UpdateAction)
        requires
            old(self).wf(),
        ensures
            final(self).wf(),
            match action {
                UpdateAction::UpdateCurrentTorrent(torrent) => if old(self)@.accepts(&torrent) {
                    &&& final(self).torrent == Some(torrent)
                    &&& final(self)@.items.len() == torrent.files@.len()
                    &&& forall|f: int|
                        0 <= f < torrent.files@.len() ==> final(self).tree.holds(&torrent, f)
                    &&& forall|d: int|
                        1 <= d < final(self).tree.directories@.len() ==> final(self).tree.in_use(d)
                    &&& final(self)@ == (FilesPopupView {
                        torrent: Some(torrent),
                        directories: final(self)@.directories,
                        items: final(self)@.items,
                        ..old(self)@
                    })
                } else {
                    *final(self) == *old(self)
                },
                _ => *final(self) == *old(self),
            },
    {
        if let UpdateAction::UpdateCurrentTorrent(torrent) = action {
            if torrent.id == self.torrent_id && torrent.wanted.len() >= torrent.files.len()
                && torrent.priorities.len() >= torrent.files.len() {
                let new_tree = Node::new_from_torrent(&torrent);
                self.torrent = Some(torrent);
                self.tree = new_tree;
            }
        }
    }

    /// What has to happen before the popup is drawn: a tree without a
    /// cursor gets one on its first entry, and the first time that metadata
    /// is there the focus goes to the tree.
    pub fn prepare_render(&mut self, hub: &mut Hub)
        ensures
            final(self).tree == old(self).tree,
            final(hub)@ == (if old(self)@.selected.len() == 0 {
                old(hub)@.with_command(CommandView::Tree(TreeMotion::SelectFirst))
            } else {
                old(hub)@
            }),
            final(self)@ == (if old(self)@.torrent is Some && !old(
                self,
            )@.switched_after_fetched_data {
                FilesPopupView {
                    current_focus: CurrentFocus::Files,
                    switched_after_fetched_data: true,
                    ..old(self)@
                }
            } else {
                old(self)@
            }),
    {
        if self.selected.len() == 0 {
            hub.send_command(Command::Tree(TreeMotion::SelectFirst));
        }
        if self.torrent.is_some() && !self.switched_after_fetched_data {
            self.current_focus = CurrentFocus::Files;
            self.switched_after_fetched_data = true;
        }
    }
}

/// Whether the files `ids` all carry the flag `wanted`.
pub open spec fn all_flagged(items: Seq<TransmissionFile>, ids: Seq<usize>, wanted: bool) -> bool {
    forall|k: int|
        0 <= k < ids.len() ==> (#[trigger] ids[k]) < items.len() && items[ids[k] as int].wanted
            == wanted
}

/// Where the selected files all carry one flag, the balance is their
/// number, with the sign of the flag.
pub proof fn lemma_balance_of_equal_flags(
    items: Seq<TransmissionFile>,
    ids: Seq<usize>,
    wanted: bool,
)
    requires
        all_flagged(items, ids, wanted),
    ensures
        wanted_balance(items, ids) == (if wanted {
            ids.len() as int
        } else {
            -(ids.len() as int)
        }),
    decreases ids.len(),
{
    if ids.len() > 0 {
        assert forall|k: int| 0 <= k < ids.drop_last().len() implies (#[trigger] ids.drop_last()[k])
            < items.len() && items[ids.drop_last()[k] as int].wanted == wanted by {
            assert(ids.drop_last()[k] == ids[k]);
        }
        lemma_balance_of_equal_flags(items, ids.drop_last(), wanted);
        assert(ids.last() == ids[ids.len() - 1]);
    }
}

/// Toggling a selection whose files all carry one flag gives them all the
/// other one, and toggling it again gives back the files as they were.
pub proof fn lemma_toggled_twice(items: Seq<TransmissionFile>, ids: Seq<usize>, wanted: bool)
    requires
        items.len() <= usize::MAX,
        ids.len() > 0,
        all_flagged(items, ids, wanted),
    ensures
        all_flagged(toggled(items, ids), ids, !wanted),
        toggled(toggled(items, ids), ids) == items,
{
    lemma_balance_of_equal_flags(items, ids, wanted);
    let once = toggled(items, ids);
    assert(once == with_wanted(items, ids, !wanted));
    assert forall|k: int| 0 <= k < ids.len() implies (#[trigger] ids[k]) < once.len()
        && once[ids[k] as int].wanted == !wanted by {
        assert(ids.contains(ids[k]));
    }
    lemma_balance_of_equal_flags(once, ids, !wanted);
    let twice = toggled(once, ids);
    assert(twice == with_wanted(once, ids, wanted));
    assert forall|f: int| 0 <= f < items.len() implies twice[f] == items[f] by {
        if ids.contains(f as usize) {
            let k = choose|k: int| 0 <= k < ids.len() && ids[k] == f as usize;
            assert(items[ids[k] as int].wanted == wanted);
        }
    }
    assert(twice =~= items);
}

/// Round trip of the wanted flags. With the metadata there, the focus on
/// the tree, no priority selector open and no more files than a list can hold, `Select` on a selection whose
/// files are all wanted, or all unwanted, flips them, and a second `Select`
/// on the same selection gives back the popup as it was before the first.
pub proof fn lemma_select_twice_restores(popup: FilesPopupView, wanted: bool, hub: HubView)
    requires
        popup.torrent is Some,
        popup.priority_popup is None,
        popup.current_focus is Files,
        popup.items.len() <= usize::MAX,
        popup.ids().len() > 0,
        all_flagged(popup.items, popup.ids(), wanted),
    ensures
        ({
            let once = popup.handle(Action::Select, hub);
            let twice = once.state.handle(Action::Select, once.hub);
            &&& all_flagged(once.state.items, popup.ids(), !wanted)
            &&& twice.state == popup
        }),
{
    lemma_toggled_twice(popup.items, popup.ids(), wanted);
    let once = popup.handle(Action::Select, hub);
    assert(once.state.items == toggled(popup.items, popup.ids()));
    assert(once.state.ids() == popup.ids());
}

/// The actions handled one after the other.
pub open spec fn run(popup: FilesPopupView, actions: Seq<Action>, hub: HubView) -> Step<
    FilesPopupView,
>
    decreases actions.len(),
{
    if actions.len() == 0 {
        Step::stay(popup, hub)
    } else {
        let before = run(popup, actions.drop_last(), hub);
        before.state.handle(actions.last(), before.hub)
    }
}

/// How many of the commands abort a job.
pub open spec fn abort_count(commands: Seq<CommandView>) -> nat
    decreases commands.len(),
{
    if commands.len() == 0 {
        0
    } else {
        abort_count(commands.drop_last()) + (if commands.last() is Abort {
            1nat
        } else {
            0nat
        })
    }
}

/// One action aborts the refresh job exactly if the job runs and the popup
/// closes on that action; the abort names the job's token, and from then on
/// the popup holds no job.
pub proof fn lemma_abort_on_close(popup: FilesPopupView, action: Action, hub: HubView)
    ensures
        ({
            let s = popup.handle(action, hub);
            &&& s.result is Quit ==> s.state.poller is None
            &&& s.result is Nothing ==> s.state.poller == popup.poller
            &&& abort_count(s.hub.commands) == abort_count(hub.commands) + (if s.result is Quit
                && popup.poller is Some {
                1nat
            } else {
                0nat
            })
            &&& s.result is Quit && popup.poller is Some ==> s.hub.commands == hub.commands.push(
                CommandView::Abort { token: popup.poller->0 },
            )
        }),
{
    let s = popup.handle(action, hub);
    if s.hub.commands != hub.commands {
        assert(s.hub.commands.len() == hub.commands.len() + 1);
        assert(s.hub.commands.drop_last() =~= hub.commands);
    }
}

/// Over any run of actions the refresh job is aborted at most once: once
/// it is aborted the popup holds no job, and without a job nothing is
/// aborted.
pub proof fn lemma_aborted_at_most_once(popup: FilesPopupView, actions: Seq<Action>, hub: HubView)
    ensures
        ({
            let end = run(popup, actions, hub);
            &&& popup.poller is None ==> end.state.poller is None
            &&& abort_count(end.hub.commands) == abort_count(hub.commands) + (if popup.poller
                is Some && end.state.poller is None {
                1nat
            } else {
                0nat
            })
        }),
    decreases actions.len(),
{
    if actions.len() > 0 {
        lemma_aborted_at_most_once(popup, actions.drop_last(), hub);
        let before = run(popup, actions.drop_last(), hub);
        lemma_abort_on_close(before.state, actions.last(), before.hub);
    }
}

} // verus!
