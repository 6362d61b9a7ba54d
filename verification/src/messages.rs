//! Fact-level messages and the requests to the daemon, with the data they
//! carry. Text that a handler builds is specified by its characters; data
//! that is handed on unchanged is specified as the value itself.

use vstd::prelude::*;
use vstd::string::*;

verus! {

/// Which key bindings the torrents tab currently answers to.
#[derive(Clone, Copy, Debug, PartialEq, Eq, Structural)]
pub enum TorrentWindow {
    General,
    FileViewer,
}

/// Which key bindings the search tab currently answers to.
#[derive(Clone, Copy, Debug, PartialEq, Eq, Structural)]
pub enum SearchWindow {
    General,
}

/// A search source.
#[derive(Clone, Copy, Debug, PartialEq, Eq, Structural)]
pub enum WhichProvider {
    Knaben,
    Nyaa,
}

/// One search result.
#[derive(Clone, Debug, PartialEq, Eq)]
pub struct Magnet {
    pub title: String,
    pub url: String,
    pub seeders: u32,
    pub bytes: u64,
}

/// What one provider found for one phrase.
#[derive(Clone, Debug, PartialEq, Eq)]
pub struct ProviderResponse {
    pub provider: WhichProvider,
    pub magnets: Vec<Magnet>,
}

/// Why a provider could not answer.
#[derive(Clone, Debug, PartialEq, Eq)]
pub enum ProviderErrorKind {
    /// The request failed; the text is the transport's own report.
    Connection(String),
    /// The provider answered with a page that could not be read.
    Html,
}

/// A provider's failure for one phrase.
#[derive(Clone, Debug, PartialEq, Eq)]
pub struct ProviderError {
    pub provider: WhichProvider,
    pub kind: ProviderErrorKind,
}

/// What the status line reports on.
#[derive(Clone, Copy, Debug, PartialEq, Eq, Structural)]
pub enum StatusTaskKind {
    Add,
    Delete,
    Move,
    Open,
    ChangeCategory,
    Rename,
}

/// An operation shown in the status line, with the name of what it works on.
#[derive(Clone, Debug, PartialEq, Eq)]
pub struct StatusTask {
    pub kind: StatusTaskKind,
    pub what: String,
}

pub struct StatusTaskView {
    pub kind: StatusTaskKind,
    pub what: Seq<char>,
}

impl View for StatusTask {
    type V = StatusTaskView;

    open spec fn view(&self) -> StatusTaskView {
        StatusTaskView { kind: self.kind, what: self.what@ }
    }
}

impl StatusTask {
    pub fn new(kind: StatusTaskKind, what: String) -> (task: StatusTask)
        ensures
            task@ == (StatusTaskView { kind, what: what@ }),
    {
        StatusTask { kind, what }
    }

    pub fn new_add(what: String) -> (task: StatusTask)
        ensures
            task@ == (StatusTaskView { kind: StatusTaskKind::Add, what: what@ }),
    {
        StatusTask { kind: StatusTaskKind::Add, what }
    }

    pub fn new_delete(what: String) -> (task: StatusTask)
        ensures
            task@ == (StatusTaskView { kind: StatusTaskKind::Delete, what: what@ }),
    {
        StatusTask { kind: StatusTaskKind::Delete, what }
    }

    pub fn new_move(what: String) -> (task: StatusTask)
        ensures
            task@ == (StatusTaskView { kind: StatusTaskKind::Move, what: what@ }),
    {
        StatusTask { kind: StatusTaskKind::Move, what }
    }

    pub fn new_open(what: String) -> (task: StatusTask)
        ensures
            task@ == (StatusTaskView { kind: StatusTaskKind::Open, what: what@ }),
    {
        StatusTask { kind: StatusTaskKind::Open, what }
    }
}

/// A failure to show to the user.
#[derive(Clone, Debug, PartialEq, Eq)]
pub struct ErrorMessage {
    pub title: String,
    pub description: String,
    pub source: String,
}

pub struct ErrorMessageView {
    pub title: Seq<char>,
    pub description: Seq<char>,
    pub source: Seq<char>,
}

impl View for ErrorMessage {
    type V = ErrorMessageView;

    open spec fn view(&self) -> ErrorMessageView {
        ErrorMessageView {
            title: self.title@,
            description: self.description@,
            source: self.source@,
        }
    }
}

/// The daemon's transfer totals.
#[derive(Clone, Copy, Debug, PartialEq, Eq, Structural)]
pub struct SessionStats {
    pub torrent_count: i32,
    pub active_torrent_count: i32,
    pub paused_torrent_count: i32,
    pub download_speed: i64,
    pub upload_speed: i64,
}

/// What the daemon is doing with a torrent.
#[derive(Clone, Copy, Debug, PartialEq, Eq, Structural)]
pub enum TorrentStatus {
    Stopped,
    QueuedToVerify,
    Verifying,
    QueuedToDownload,
    Downloading,
    QueuedToSeed,
    Seeding,
}

/// One row of the torrent list.
#[derive(Clone, Debug, PartialEq, Eq)]
pub struct Torrent {
    pub id: i64,
    pub name: String,
    pub download_dir: String,
    pub status: TorrentStatus,
    /// The daemon's complaint about this torrent, if it has one.
    pub error: Option<String>,
}

impl Torrent {
    /// A copy of the row.
    pub fn duplicate(&self) -> (copy: Torrent)
        ensures
            copy == *self,
    {
        Torrent {
            id: self.id,
            name: self.name.clone(),
            download_dir: self.download_dir.clone(),
            status: self.status,
            error: match &self.error {
                Some(e) => Some(e.clone()),
                None => None,
            },
        }
    }

    /// Where the torrent's data lies on disk: its name inside its download
    /// directory.
    pub open spec fn location(&self) -> Seq<char> {
        self.download_dir@ + seq!['/'] + self.name@
    }

    /// Where the torrent's data lies on disk.
    pub fn torrent_location(&self) -> (path: String)
        ensures
            path@ == self.location(),
    {
        let mut path = self.download_dir.clone();
        proof {
            reveal_strlit("/");
        }
        path.append("/");
        path.append(self.name.as_str());
        assert(path@ =~= self.location());
        path
    }
}

/// How eagerly a file is fetched.
#[derive(Clone, Copy, Debug, PartialEq, Eq, Structural)]
pub enum Priority {
    Low,
    Normal,
    High,
}

/// One file of a torrent as the daemon lists it: the path inside the
/// torrent, with `/` between its segments, and the byte counts.
#[derive(Clone, Debug, PartialEq, Eq)]
pub struct FileEntry {
    pub name: String,
    pub length: i64,
    pub bytes_completed: i64,
}

/// The file-level metadata of one torrent. The three lists run in parallel:
/// the position of a file is its id, and its flag and its priority stand at
/// that position.
#[derive(Clone, Debug, PartialEq, Eq)]
pub struct TorrentInfo {
    pub id: i64,
    pub download_dir: String,
    pub files: Vec<FileEntry>,
    pub wanted: Vec<bool>,
    pub priorities: Vec<Priority>,
}

impl TorrentInfo {
    /// Every file has its flag and its priority.
    pub open spec fn wf(&self) -> bool {
        &&& self.wanted@.len() >= self.files@.len()
        &&& self.priorities@.len() >= self.files@.len()
    }
}

/// A change to some files of a torrent.
#[derive(Clone, Debug, PartialEq, Eq)]
pub enum FieldPatch {
    FilesWanted(Vec<usize>),
    FilesUnwanted(Vec<usize>),
    PriorityLow(Vec<usize>),
    PriorityNormal(Vec<usize>),
    PriorityHigh(Vec<usize>),
}

pub enum FieldPatchView {
    FilesWanted(Seq<usize>),
    FilesUnwanted(Seq<usize>),
    PriorityLow(Seq<usize>),
    PriorityNormal(Seq<usize>),
    PriorityHigh(Seq<usize>),
}

impl View for FieldPatch {
    type V = FieldPatchView;

    open spec fn view(&self) -> FieldPatchView {
        match self {
            FieldPatch::FilesWanted(files) => FieldPatchView::FilesWanted(files@),
            FieldPatch::FilesUnwanted(files) => FieldPatchView::FilesUnwanted(files@),
            FieldPatch::PriorityLow(files) => FieldPatchView::PriorityLow(files@),
            FieldPatch::PriorityNormal(files) => FieldPatchView::PriorityNormal(files@),
            FieldPatch::PriorityHigh(files) => FieldPatchView::PriorityHigh(files@),
        }
    }
}

/// A request to the daemon. Sending one never waits for the answer.
#[derive(Clone, Debug, PartialEq, Eq)]
pub enum RpcAction {
    Add { magnet: String, directory: Option<String>, category: Option<String> },
    Start(Vec<i64>),
    Stop(Vec<i64>),
    Delete { ids: Vec<i64>, with_files: bool },
    Move { ids: Vec<i64>, directory: String },
    Rename { id: i64, current_name: String, new_name: String },
    ChangeCategory { ids: Vec<i64>, category: String },
    SetArgs { ids: Vec<i64>, patch: FieldPatch },
}

pub enum RpcActionView {
    Add { magnet: Seq<char>, directory: Option<Seq<char>>, category: Option<Seq<char>> },
    Start(Seq<i64>),
    Stop(Seq<i64>),
    Delete { ids: Seq<i64>, with_files: bool },
    Move { ids: Seq<i64>, directory: Seq<char> },
    Rename { id: i64, current_name: Seq<char>, new_name: Seq<char> },
    ChangeCategory { ids: Seq<i64>, category: Seq<char> },
    SetArgs { ids: Seq<i64>, patch: FieldPatchView },
}

/// The characters of an optional text.
pub open spec fn opt_text(text: Option<String>) -> Option<Seq<char>> {
    match text {
        Some(t) => Some(t@),
        None => None,
    }
}

impl View for RpcAction {
    type V = RpcActionView;

    open spec fn view(&self) -> RpcActionView {
        match self {
            RpcAction::Add { magnet, directory, category } => RpcActionView::Add {
                magnet: magnet@,
                directory: opt_text(*directory),
                category: opt_text(*category),
            },
            RpcAction::Start(ids) => RpcActionView::Start(ids@),
            RpcAction::Stop(ids) => RpcActionView::Stop(ids@),
            RpcAction::Delete { ids, with_files } => RpcActionView::Delete {
                ids: ids@,
                with_files: *with_files,
            },
            RpcAction::Move { ids, directory } => RpcActionView::Move {
                ids: ids@,
                directory: directory@,
            },
            RpcAction::Rename { id, current_name, new_name } => RpcActionView::Rename {
                id: *id,
                current_name: current_name@,
                new_name: new_name@,
            },
            RpcAction::ChangeCategory { ids, category } => RpcActionView::ChangeCategory {
                ids: ids@,
                category: category@,
            },
            RpcAction::SetArgs { ids, patch } => RpcActionView::SetArgs {
                ids: ids@,
                patch: patch@,
            },
        }
    }
}

/// A long-lived background job that re-fetches one piece of remote state.
#[derive(Clone, Copy, Debug, PartialEq, Eq, Structural)]
pub enum Poller {
    SessionStats,
    TorrentList,
    FreeSpace,
    /// The file-level metadata of one torrent, while its files are on show.
    TorrentFiles { torrent_id: i64 },
}

/// A move in the file tree on screen, whose layout only the renderer knows.
#[derive(Clone, Copy, Debug, PartialEq, Eq, Structural)]
pub enum TreeMotion {
    Up,
    Down,
    /// Open or close the directory under the cursor.
    Toggle,
    SelectFirst,
}

/// What the desktop is asked to open.
#[derive(Clone, Copy, Debug, PartialEq, Eq, Structural)]
pub enum OpenTarget {
    File,
    TorrentDirectory,
    Link,
}

/// Work for the runtime around the core: background jobs to start or to
/// abort, a search race to launch, a path to hand to the desktop. Every job
/// is started under a token that its owner keeps and aborts it by.
#[derive(Clone, Debug, PartialEq, Eq)]
pub enum Command {
    Spawn { token: u64, poller: Poller },
    Abort { token: u64 },
    /// Query each of the providers for the phrase, and race them against the
    /// timeout; every answer comes back tagged with the generation.
    StartSearch { generation: u64, phrase: String, providers: Vec<WhichProvider> },
    /// Open the path with the desktop's handler for it.
    Open { path: String, target: OpenTarget },
    /// Move the cursor of the file tree on screen.
    Tree(TreeMotion),
}

pub enum CommandView {
    Spawn { token: u64, poller: Poller },
    Abort { token: u64 },
    StartSearch { generation: u64, phrase: Seq<char>, providers: Seq<WhichProvider> },
    Open { path: Seq<char>, target: OpenTarget },
    Tree(TreeMotion),
}

impl View for Command {
    type V = CommandView;

    open spec fn view(&self) -> CommandView {
        match self {
            Command::Spawn { token, poller } => CommandView::Spawn {
                token: *token,
                poller: *poller,
            },
            Command::Abort { token } => CommandView::Abort { token: *token },
            Command::StartSearch { generation, phrase, providers } => CommandView::StartSearch {
                generation: *generation,
                phrase: phrase@,
                providers: providers@,
            },
            Command::Open { path, target } => CommandView::Open { path: path@, target: *target },
            Command::Tree(motion) => CommandView::Tree(*motion),
        }
    }
}

/// A notice that some state changed, on its way from whoever produced it to
/// the components that hold a copy of that state.
#[derive(Clone, Debug, PartialEq, Eq)]
pub enum UpdateAction {
    SwitchToInputMode,
    SwitchToNormalMode,
    ChangeTorrentWindow(TorrentWindow),
    SessionStats(SessionStats),
    FreeSpace(u64),
    UpdateTorrents(Vec<Torrent>),
    UpdateCurrentTorrent(TorrentInfo),
    SearchStarted,
    ProviderResult(ProviderResponse),
    ProviderError(ProviderError),
    SearchFinished,
    SearchFilterApply(String),
    SearchFilterClear,
    StatusTaskSet(StatusTask),
    StatusTaskSetSuccess(StatusTask),
    StatusTaskSuccess,
    StatusTaskFailure,
    StatusTaskClear,
    CancelTorrentTask,
    Error(ErrorMessage),
}

pub enum UpdateActionView {
    SwitchToInputMode,
    SwitchToNormalMode,
    ChangeTorrentWindow(TorrentWindow),
    SessionStats(SessionStats),
    FreeSpace(u64),
    UpdateTorrents(Vec<Torrent>),
    UpdateCurrentTorrent(TorrentInfo),
    SearchStarted,
    ProviderResult(ProviderResponse),
    ProviderError(ProviderError),
    SearchFinished,
    SearchFilterApply(Seq<char>),
    SearchFilterClear,
    StatusTaskSet(StatusTaskView),
    StatusTaskSetSuccess(StatusTaskView),
    StatusTaskSuccess,
    StatusTaskFailure,
    StatusTaskClear,
    CancelTorrentTask,
    Error(ErrorMessageView),
}

impl View for UpdateAction {
    type V = UpdateActionView;

    open spec fn view(&self) -> UpdateActionView {
        match self {
            UpdateAction::SwitchToInputMode => UpdateActionView::SwitchToInputMode,
            UpdateAction::SwitchToNormalMode => UpdateActionView::SwitchToNormalMode,
            UpdateAction::ChangeTorrentWindow(w) => UpdateActionView::ChangeTorrentWindow(*w),
            UpdateAction::SessionStats(s) => UpdateActionView::SessionStats(*s),
            UpdateAction::FreeSpace(b) => UpdateActionView::FreeSpace(*b),
            UpdateAction::UpdateTorrents(t) => UpdateActionView::UpdateTorrents(*t),
            UpdateAction::UpdateCurrentTorrent(t) => UpdateActionView::UpdateCurrentTorrent(*t),
            UpdateAction::SearchStarted => UpdateActionView::SearchStarted,
            UpdateAction::ProviderResult(r) => UpdateActionView::ProviderResult(*r),
            UpdateAction::ProviderError(e) => UpdateActionView::ProviderError(*e),
            UpdateAction::SearchFinished => UpdateActionView::SearchFinished,
            UpdateAction::SearchFilterApply(p) => UpdateActionView::SearchFilterApply(p@),
            UpdateAction::SearchFilterClear => UpdateActionView::SearchFilterClear,
            UpdateAction::StatusTaskSet(t) => UpdateActionView::StatusTaskSet(t@),
            UpdateAction::StatusTaskSetSuccess(t) => UpdateActionView::StatusTaskSetSuccess(t@),
            UpdateAction::StatusTaskSuccess => UpdateActionView::StatusTaskSuccess,
            UpdateAction::StatusTaskFailure => UpdateActionView::StatusTaskFailure,
            UpdateAction::StatusTaskClear => UpdateActionView::StatusTaskClear,
            UpdateAction::CancelTorrentTask => UpdateActionView::CancelTorrentTask,
            UpdateAction::Error(e) => UpdateActionView::Error(e@),
        }
    }
}

} // verus!
