use rustmission::action::{Action, ComponentAction};
use rustmission::hub::Hub;
use rustmission::messages::{
    Command, FieldPatch, FileEntry, OpenTarget, Poller, Priority, RpcAction, TorrentInfo,
    TreeMotion, UpdateAction,
};
use rustmission::text_index::parse_index;
use rustmission::torrents::files::{CurrentFocus, FilesPopup, PriorityPopup};
use rustmission::torrents::tree::{path_segments, Node, TransmissionFile};

fn entry(name: &str, length: i64, done: i64) -> FileEntry {
    FileEntry { name: name.to_string(), length, bytes_completed: done }
}

fn info() -> TorrentInfo {
    TorrentInfo {
        id: 42,
        download_dir: "/downloads".to_string(),
        files: vec![
            entry("album/cd1/a.flac", 100, 100),
            entry("album/cd1/b.flac", 200, 50),
            entry("album/cover.jpg", 10, 0),
            entry("readme.txt", 1, 1),
        ],
        wanted: vec![true, true, false, true],
        priorities: vec![Priority::Normal, Priority::High, Priority::Low, Priority::Normal],
    }
}

fn loaded_popup(hub: &mut Hub) -> FilesPopup {
    let mut popup = FilesPopup::new(42, 9, hub);
    popup.handle_update_action(UpdateAction::UpdateCurrentTorrent(info()));
    popup.prepare_render(hub);
    while hub.next_command().is_some() {}
    popup
}

fn select(popup: &mut FilesPopup, path: &[&str]) {
    popup.set_selected(path.iter().map(|s| s.to_string()).collect());
}

fn commands(hub: &mut Hub) -> Vec<Command> {
    let mut out = vec![];
    while let Some(c) = hub.next_command() {
        out.push(c);
    }
    out
}

fn requests(hub: &mut Hub) -> Vec<RpcAction> {
    let mut out = vec![];
    while let Some(r) = hub.next_rpc_action() {
        out.push(r);
    }
    out
}

fn actions(hub: &mut Hub) -> Vec<Action> {
    let mut out = vec![];
    while let Some(a) = hub.next_action() {
        out.push(a);
    }
    out
}

fn wanted(popup: &FilesPopup) -> Vec<bool> {
    popup.tree.items.iter().map(|f| f.wanted).collect()
}

#[test]
fn parse_index_agrees_with_the_standard_parser() {
    let texts = [
        "", "0", "7", "007", "42", "+5", "+", "-1", "1a", "a1", " 1", "1 ", "１", "18446744073709551615",
        "18446744073709551616", "99999999999999999999999", "+18446744073709551615", "++1", "1+",
    ];
    for text in texts {
        assert_eq!(parse_index(text), text.parse::<usize>().ok(), "{text:?}");
    }
}

#[test]
fn paths_split_at_every_slash() {
    assert_eq!(path_segments("a/b/c.txt"), vec!["a", "b", "c.txt"]);
    assert_eq!(path_segments("file"), vec!["file"]);
    assert_eq!(path_segments(""), vec![""]);
    assert_eq!(path_segments("a//b"), vec!["a", "", "b"]);
    assert_eq!(path_segments("/a/"), vec!["", "a", ""]);
    assert_eq!(path_segments("dir/ü/ß"), vec!["dir", "ü", "ß"]);
    let text = "x/y/z";
    let expected: Vec<String> = text.split('/').map(str::to_string).collect();
    assert_eq!(path_segments(text), expected);
}

#[test]
fn the_tree_has_one_directory_per_path() {
    let tree = Node::new_from_torrent(&info());
    let names: Vec<(&str, usize)> =
        tree.directories.iter().map(|d| (d.name.as_str(), d.parent)).collect();
    assert_eq!(names, vec![("", 0), ("album", 0), ("cd1", 1)]);
    let files: Vec<(&str, usize, usize)> =
        tree.items.iter().map(|f| (f.name.as_str(), f.id, f.directory)).collect();
    assert_eq!(
        files,
        vec![("a.flac", 0, 2), ("b.flac", 1, 2), ("cover.jpg", 2, 1), ("readme.txt", 3, 0)]
    );
    assert_eq!(tree.items[1].length, 200);
    assert_eq!(tree.items[1].bytes_completed, 50);
    assert_eq!(tree.items[1].priority, Priority::High);
    assert_eq!(tree.items[1].priority_str(), "High");
    assert_eq!(tree.items[2].priority_str(), "Low");
    assert_eq!(tree.items[0].priority_str(), "Normal");
    assert!(!tree.items[2].wanted);
}

#[test]
fn children_are_listed_in_order() {
    let tree = Node::new_from_torrent(&info());
    assert_eq!(tree.child_directories(0), vec![1]);
    assert_eq!(tree.child_directories(1), vec![2]);
    assert_eq!(tree.child_directories(2), Vec::<usize>::new());
    assert_eq!(tree.child_files(0), vec![3]);
    assert_eq!(tree.child_files(1), vec![2]);
    assert_eq!(tree.child_files(2), vec![0, 1]);
    assert_eq!(tree.find_directory(1, &"cd1".to_string()), Some(2));
    assert_eq!(tree.find_directory(0, &"cd1".to_string()), None);
    assert_eq!(tree.file_name(2), Some("cover.jpg".to_string()));
    assert_eq!(tree.file_name(4), None);
}

#[test]
fn same_name_in_different_directories_makes_two_directories() {
    let torrent = TorrentInfo {
        id: 1,
        download_dir: "/d".to_string(),
        files: vec![entry("a/x/1", 1, 0), entry("b/x/2", 1, 0), entry("a/x/3", 1, 0)],
        wanted: vec![true; 3],
        priorities: vec![Priority::Normal; 3],
    };
    let tree = Node::new_from_torrent(&torrent);
    let names: Vec<(&str, usize)> =
        tree.directories.iter().map(|d| (d.name.as_str(), d.parent)).collect();
    assert_eq!(names, vec![("", 0), ("a", 0), ("x", 1), ("b", 0), ("x", 3)]);
    let dirs: Vec<usize> = tree.items.iter().map(|f| f.directory).collect();
    assert_eq!(dirs, vec![2, 4, 2]);
}

#[test]
fn set_wanted_passes_over_unknown_ids() {
    let mut tree = Node::new_from_torrent(&info());
    tree.set_wanted(&vec![2, 9, 0], true);
    let flags: Vec<bool> = tree.items.iter().map(|f| f.wanted).collect();
    assert_eq!(flags, vec![true, true, true, true]);
    tree.set_wanted(&vec![1, 1], false);
    let flags: Vec<bool> = tree.items.iter().map(|f| f.wanted).collect();
    assert_eq!(flags, vec![true, false, true, true]);
}

#[test]
fn the_popup_starts_its_job_and_waits_for_metadata() {
    let mut hub = Hub::new();
    let mut popup = FilesPopup::new(42, 9, &mut hub);
    assert_eq!(
        commands(&mut hub),
        vec![Command::Spawn { token: 9, poller: Poller::TorrentFiles { torrent_id: 42 } }]
    );
    assert_eq!(popup.current_focus, CurrentFocus::CloseButton);
    assert_eq!(popup.poller, Some(9));
    popup.prepare_render(&mut hub);
    assert_eq!(popup.current_focus, CurrentFocus::CloseButton);
    assert_eq!(commands(&mut hub), vec![Command::Tree(TreeMotion::SelectFirst)]);

    popup.handle_update_action(UpdateAction::UpdateCurrentTorrent(info()));
    assert_eq!(popup.tree.items.len(), 4);
    popup.prepare_render(&mut hub);
    assert_eq!(popup.current_focus, CurrentFocus::Files);
    assert!(popup.switched_after_fetched_data);
    popup.handle_actions(Action::ChangeFocus, &mut hub);
    popup.prepare_render(&mut hub);
    assert_eq!(popup.current_focus, CurrentFocus::CloseButton);
}

#[test]
fn metadata_of_another_torrent_or_out_of_shape_is_passed_over() {
    let mut hub = Hub::new();
    let mut popup = FilesPopup::new(42, 9, &mut hub);
    let mut other = info();
    other.id = 43;
    popup.handle_update_action(UpdateAction::UpdateCurrentTorrent(other));
    assert!(popup.torrent.is_none());
    let mut short = info();
    short.wanted.pop();
    popup.handle_update_action(UpdateAction::UpdateCurrentTorrent(short));
    assert!(popup.torrent.is_none());
    popup.handle_update_action(UpdateAction::SearchStarted);
    assert!(popup.torrent.is_none());
    assert_eq!(popup.tree.items.len(), 0);
}

#[test]
fn select_toggles_one_file_and_back() {
    let mut hub = Hub::new();
    let mut popup = loaded_popup(&mut hub);
    select(&mut popup, &["album", "cd1", "1"]);
    assert_eq!(popup.selected_ids(), vec![1]);
    let at_first = wanted(&popup);

    assert_eq!(popup.handle_actions(Action::Select, &mut hub), ComponentAction::Nothing);
    assert_eq!(wanted(&popup), vec![true, false, false, true]);
    assert_eq!(
        requests(&mut hub),
        vec![RpcAction::SetArgs { ids: vec![42], patch: FieldPatch::FilesUnwanted(vec![1]) }]
    );
    assert_eq!(actions(&mut hub), vec![Action::Render]);

    assert_eq!(popup.handle_actions(Action::Select, &mut hub), ComponentAction::Nothing);
    assert_eq!(wanted(&popup), at_first);
    assert_eq!(
        requests(&mut hub),
        vec![RpcAction::SetArgs { ids: vec![42], patch: FieldPatch::FilesWanted(vec![1]) }]
    );
}

#[test]
fn confirm_on_the_tree_toggles_too() {
    let mut hub = Hub::new();
    let mut popup = loaded_popup(&mut hub);
    select(&mut popup, &["album", "2"]);
    assert_eq!(popup.handle_actions(Action::Confirm, &mut hub), ComponentAction::Nothing);
    assert_eq!(wanted(&popup), vec![true, true, true, true]);
    assert_eq!(
        requests(&mut hub),
        vec![RpcAction::SetArgs { ids: vec![42], patch: FieldPatch::FilesWanted(vec![2]) }]
    );
}

#[test]
fn a_mixed_selection_follows_the_majority() {
    let mut hub = Hub::new();
    let mut popup = loaded_popup(&mut hub);
    select(&mut popup, &["0", "1", "2"]);
    assert_eq!(popup.selected_ids(), vec![0, 1, 2]);
    popup.handle_actions(Action::Select, &mut hub);
    assert_eq!(wanted(&popup), vec![false, false, false, true]);
    popup.handle_actions(Action::Select, &mut hub);
    assert_eq!(wanted(&popup), vec![true, true, true, true]);
    select(&mut popup, &["2", "3", "9"]);
    assert_eq!(popup.selected_ids(), vec![2, 3]);
    popup.set_selected(vec!["0".to_string(), "2".to_string()]);
    popup.tree.set_wanted(&vec![2], false);
    popup.handle_actions(Action::Select, &mut hub);
    assert_eq!(wanted(&popup), vec![true, true, true, true]);
}

#[test]
fn select_on_a_directory_opens_or_closes_it() {
    let mut hub = Hub::new();
    let mut popup = loaded_popup(&mut hub);
    select(&mut popup, &["album", "cd1"]);
    let before = wanted(&popup);
    popup.handle_actions(Action::Select, &mut hub);
    assert_eq!(wanted(&popup), before);
    assert_eq!(commands(&mut hub), vec![Command::Tree(TreeMotion::Toggle)]);
    assert_eq!(actions(&mut hub), vec![Action::Render]);
    assert_eq!(requests(&mut hub), vec![]);
}

#[test]
fn nothing_is_toggled_before_metadata_has_come() {
    let mut hub = Hub::new();
    let mut popup = FilesPopup::new(42, 9, &mut hub);
    commands(&mut hub);
    popup.handle_actions(Action::ChangeFocus, &mut hub);
    actions(&mut hub);
    select(&mut popup, &["0"]);
    popup.handle_actions(Action::Select, &mut hub);
    popup.handle_actions(Action::XdgOpen, &mut hub);
    assert_eq!(commands(&mut hub), vec![]);
    assert_eq!(requests(&mut hub), vec![]);
    assert_eq!(actions(&mut hub), vec![]);
}

#[test]
fn moves_go_to_the_tree_on_screen() {
    let mut hub = Hub::new();
    let mut popup = loaded_popup(&mut hub);
    popup.handle_actions(Action::Up, &mut hub);
    popup.handle_actions(Action::ScrollUpBy(5), &mut hub);
    popup.handle_actions(Action::Down, &mut hub);
    popup.handle_actions(Action::ScrollDownBy(5), &mut hub);
    assert_eq!(
        commands(&mut hub),
        vec![
            Command::Tree(TreeMotion::Up),
            Command::Tree(TreeMotion::Up),
            Command::Tree(TreeMotion::Down),
            Command::Tree(TreeMotion::Down),
        ]
    );
    assert_eq!(actions(&mut hub), vec![Action::Render; 4]);
}

#[test]
fn with_the_focus_on_the_button_the_tree_is_out_of_reach() {
    let mut hub = Hub::new();
    let mut popup = loaded_popup(&mut hub);
    select(&mut popup, &["0"]);
    popup.handle_actions(Action::ChangeFocus, &mut hub);
    actions(&mut hub);
    for action in [Action::Select, Action::Up, Action::Down, Action::XdgOpen, Action::ChangeFilePriority]
    {
        assert_eq!(popup.handle_actions(action, &mut hub), ComponentAction::Nothing);
    }
    assert!(popup.priority_popup.is_none());
    assert_eq!(commands(&mut hub), vec![]);
    assert_eq!(requests(&mut hub), vec![]);
    assert_eq!(actions(&mut hub), vec![]);
    assert_eq!(popup.handle_actions(Action::Confirm, &mut hub), ComponentAction::Quit);
    assert_eq!(commands(&mut hub), vec![Command::Abort { token: 9 }]);
}

#[test]
fn opening_names_the_file_by_its_name() {
    let mut hub = Hub::new();
    let mut popup = loaded_popup(&mut hub);
    select(&mut popup, &["album", "cd1", "1"]);
    popup.handle_actions(Action::XdgOpen, &mut hub);
    select(&mut popup, &["album", "cd1"]);
    popup.handle_actions(Action::XdgOpen, &mut hub);
    select(&mut popup, &["3"]);
    popup.handle_actions(Action::XdgOpen, &mut hub);
    select(&mut popup, &[]);
    popup.handle_actions(Action::XdgOpen, &mut hub);
    assert_eq!(
        commands(&mut hub),
        vec![
            Command::Open {
                path: "/downloads/album/cd1/b.flac".to_string(),
                target: OpenTarget::File
            },
            Command::Open { path: "/downloads/album/cd1".to_string(), target: OpenTarget::File },
            Command::Open { path: "/downloads/readme.txt".to_string(), target: OpenTarget::File },
        ]
    );
}

#[test]
fn closing_aborts_the_job_once() {
    for action in [Action::Quit, Action::HardQuit, Action::Close] {
        let mut hub = Hub::new();
        let mut popup = loaded_popup(&mut hub);
        assert_eq!(popup.handle_actions(action, &mut hub), ComponentAction::Quit);
        assert_eq!(popup.poller, None);
        assert_eq!(popup.handle_actions(action, &mut hub), ComponentAction::Quit);
        assert_eq!(commands(&mut hub), vec![Command::Abort { token: 9 }]);
    }
}

#[test]
fn the_priority_selector_takes_every_action_while_open() {
    let mut hub = Hub::new();
    let mut popup = loaded_popup(&mut hub);
    select(&mut popup, &["album", "cd1", "0"]);
    popup.handle_actions(Action::ChangeFilePriority, &mut hub);
    assert!(popup.priority_popup.is_some());
    actions(&mut hub);

    assert_eq!(popup.handle_actions(Action::Quit, &mut hub), ComponentAction::Nothing);
    assert!(popup.priority_popup.is_none());
    assert_eq!(popup.poller, Some(9));
    assert_eq!(commands(&mut hub), vec![]);
    assert_eq!(actions(&mut hub), vec![Action::Render]);

    popup.handle_actions(Action::ChangeFilePriority, &mut hub);
    popup.handle_actions(Action::Down, &mut hub);
    assert_eq!(popup.handle_actions(Action::Confirm, &mut hub), ComponentAction::Nothing);
    assert!(popup.priority_popup.is_none());
    assert_eq!(
        requests(&mut hub),
        vec![RpcAction::SetArgs { ids: vec![42], patch: FieldPatch::PriorityHigh(vec![0]) }]
    );
    assert_eq!(commands(&mut hub), vec![]);
}

#[test]
fn the_priority_selector_moves_between_three_entries() {
    let mut hub = Hub::new();
    let mut popup = PriorityPopup::new(1, vec![4, 5]);
    assert_eq!(popup.selected, Priority::Normal);
    popup.handle_actions(Action::Up, &mut hub);
    assert_eq!(popup.selected, Priority::Low);
    popup.handle_actions(Action::Up, &mut hub);
    assert_eq!(popup.selected, Priority::Low);
    assert_eq!(popup.handle_actions(Action::Confirm, &mut hub), ComponentAction::Quit);
    assert_eq!(
        requests(&mut hub),
        vec![RpcAction::SetArgs { ids: vec![1], patch: FieldPatch::PriorityLow(vec![4, 5]) }]
    );
    popup.handle_actions(Action::Down, &mut hub);
    assert_eq!(popup.selected, Priority::Normal);
    assert_eq!(popup.handle_actions(Action::Confirm, &mut hub), ComponentAction::Quit);
    assert_eq!(
        requests(&mut hub),
        vec![RpcAction::SetArgs { ids: vec![1], patch: FieldPatch::PriorityNormal(vec![4, 5]) }]
    );
    popup.handle_actions(Action::Down, &mut hub);
    popup.handle_actions(Action::Down, &mut hub);
    assert_eq!(popup.selected, Priority::High);
    assert_eq!(popup.handle_actions(Action::Close, &mut hub), ComponentAction::Quit);
    assert_eq!(popup.handle_actions(Action::Select, &mut hub), ComponentAction::Nothing);
    assert_eq!(requests(&mut hub), vec![]);
}

fn loose_file(name: &str, id: usize) -> TransmissionFile {
    TransmissionFile {
        name: name.to_string(),
        id,
        wanted: true,
        priority: Priority::Normal,
        length: 1,
        bytes_completed: 0,
        directory: 0,
    }
}

#[test]
fn a_file_without_a_path_is_not_put_into_the_tree() {
    let mut tree = Node::new_from_torrent(&info());
    let before = tree.clone();
    tree.add_transmission_file(loose_file("x", 4), &vec![]);
    assert_eq!(tree, before);
}

#[test]
fn a_file_goes_under_its_directories_and_never_under_its_own_segment() {
    let mut tree = Node::new();
    tree.add_transmission_file(loose_file("a.txt", 0), &vec!["a.txt".to_string()]);
    assert_eq!(tree.directories.len(), 1);
    assert_eq!(tree.items[0].directory, 0);
    let path = vec!["d".to_string(), "e".to_string(), "ignored".to_string()];
    tree.add_transmission_file(loose_file("b.txt", 1), &path);
    let names: Vec<(&str, usize)> =
        tree.directories.iter().map(|d| (d.name.as_str(), d.parent)).collect();
    assert_eq!(names, vec![("", 0), ("d", 0), ("e", 1)]);
    assert_eq!(tree.items[1].name, "b.txt");
    assert_eq!(tree.items[1].directory, 2);
    assert_eq!(tree.items[0].directory, 0);
}

#[test]
fn metadata_with_more_flags_than_files_is_taken() {
    let mut hub = Hub::new();
    let mut popup = FilesPopup::new(42, 9, &mut hub);
    let mut longer = info();
    longer.wanted.push(false);
    longer.priorities.push(Priority::High);
    longer.priorities.push(Priority::Low);
    popup.handle_update_action(UpdateAction::UpdateCurrentTorrent(longer));
    assert!(popup.torrent.is_some());
    assert_eq!(wanted(&popup), vec![true, true, false, true]);
    let mut fewer = info();
    fewer.id = 42;
    fewer.priorities.pop();
    let mut other = FilesPopup::new(42, 9, &mut hub);
    other.handle_update_action(UpdateAction::UpdateCurrentTorrent(fewer));
    assert!(other.torrent.is_none());
}

#[test]
fn a_selection_that_names_no_file_is_not_admitted_for_toggling() {
    let mut hub = Hub::new();
    let mut popup = loaded_popup(&mut hub);
    select(&mut popup, &["album", "7"]);
    assert!(!popup.admits(Action::Select));
    assert!(!popup.admits(Action::Confirm));
    assert!(!popup.admits(Action::XdgOpen));
    for action in [Action::Up, Action::Down, Action::Quit, Action::ChangeFocus, Action::ChangeFilePriority]
    {
        assert!(popup.admits(action));
    }
    select(&mut popup, &["2024", "1"]);
    assert!(!popup.admits(Action::Select));
    assert!(popup.admits(Action::XdgOpen));
    select(&mut popup, &["album", "cd1", "1"]);
    assert!(popup.admits(Action::Select));
    assert!(popup.admits(Action::XdgOpen));
    select(&mut popup, &[]);
    assert!(popup.admits(Action::Select));
    assert!(popup.admits(Action::XdgOpen));
}

#[test]
fn everything_is_admitted_where_the_tree_is_out_of_reach() {
    let mut hub = Hub::new();
    let mut waiting = FilesPopup::new(42, 9, &mut hub);
    select(&mut waiting, &["7"]);
    waiting.handle_actions(Action::ChangeFocus, &mut hub);
    assert!(waiting.admits(Action::Select));
    assert!(waiting.admits(Action::XdgOpen));

    let mut popup = loaded_popup(&mut hub);
    select(&mut popup, &["7"]);
    popup.handle_actions(Action::ChangeFilePriority, &mut hub);
    assert!(popup.admits(Action::Select));
    assert!(popup.admits(Action::Confirm));
    popup.handle_actions(Action::Close, &mut hub);
    assert!(!popup.admits(Action::Select));
    popup.handle_actions(Action::ChangeFocus, &mut hub);
    assert!(popup.admits(Action::Select));
    assert!(popup.admits(Action::Confirm));
}
