use rustmission::action::{Action, Event, KeyCode, KeyEvent, Mode};
use rustmission::hub::Hub;
use rustmission::keymap::{
    default_torrents_tab_file_viewer, KeyModifier, Keybinding, KeybindsHolder, KeymapConfig,
};
use rustmission::main_window::MainWindow;
use rustmission::messages::{
    ErrorMessage, Magnet, ProviderResponse, StatusTask, Torrent, TorrentStatus, TorrentWindow,
    UpdateAction, WhichProvider,
};
use rustmission::search::SearchTab;
use rustmission::tabs::CurrentTab;
use rustmission::task_manager::CurrentTask;
use rustmission::torrents::TorrentsTab;

fn window(hub: &mut Hub) -> MainWindow {
    let torrents = TorrentsTab::new(vec![], 4, hub);
    let search = SearchTab::new(&vec![WhichProvider::Nyaa], vec![], "/d".to_string());
    while hub.next_command().is_some() {}
    MainWindow::new(torrents, search)
}

fn bind(on: KeyCode, action: Action) -> Keybinding {
    Keybinding { on, modifier: KeyModifier::Plain, action, show_in_help: true }
}

fn keymap() -> KeymapConfig {
    KeymapConfig {
        general: KeybindsHolder {
            keybindings: vec![bind(KeyCode::Char('q'), Action::Quit), bind(KeyCode::Down, Action::Down)],
        },
        torrents_tab: KeybindsHolder {
            keybindings: vec![bind(KeyCode::Char('d'), Action::Delete), bind(KeyCode::Char('q'), Action::Close)],
        },
        torrents_tab_file_viewer: default_torrents_tab_file_viewer(),
        search_tab: KeybindsHolder { keybindings: vec![bind(KeyCode::Char('i'), Action::ShowProvidersInfo)] },
    }
}

fn actions(hub: &mut Hub) -> Vec<Action> {
    let mut out = vec![];
    while let Some(a) = hub.next_action() {
        out.push(a);
    }
    out
}

fn key_event(code: KeyCode) -> Event {
    Event::Key(KeyEvent::plain(code))
}

#[test]
fn keys_are_looked_up_by_tab_and_window() {
    let mut hub = Hub::new();
    let mut w = window(&mut hub);
    let map = keymap();
    assert_eq!(w.event_to_action(&map, key_event(KeyCode::Char('q'))), Some(Action::Quit));
    assert_eq!(w.event_to_action(&map, key_event(KeyCode::Char('d'))), Some(Action::Delete));
    assert_eq!(w.event_to_action(&map, key_event(KeyCode::Char('p'))), None);
    assert_eq!(w.event_to_action(&map, key_event(KeyCode::Char('i'))), None);
    assert_eq!(w.event_to_action(&map, Event::Tick), Some(Action::Tick));
    assert_eq!(w.event_to_action(&map, Event::Render), Some(Action::Render));
    assert_eq!(w.event_to_action(&map, Event::Quit), Some(Action::Quit));
    assert_eq!(w.event_to_action(&map, Event::Error), None);

    w.handle_update_action(UpdateAction::ChangeTorrentWindow(TorrentWindow::FileViewer), &mut hub);
    assert_eq!(
        w.event_to_action(&map, key_event(KeyCode::Char('p'))),
        Some(Action::ChangeFilePriority)
    );
    assert_eq!(w.event_to_action(&map, key_event(KeyCode::Char('d'))), None);

    w.handle_actions(Action::ChangeTab(2), &mut hub);
    assert_eq!(
        w.event_to_action(&map, key_event(KeyCode::Char('i'))),
        Some(Action::ShowProvidersInfo)
    );
    assert_eq!(w.event_to_action(&map, key_event(KeyCode::Char('p'))), None);
    assert_eq!(w.event_to_action(&map, key_event(KeyCode::Down)), Some(Action::Down));
}

#[test]
fn in_input_mode_every_key_is_text() {
    let mut hub = Hub::new();
    let mut w = window(&mut hub);
    let map = keymap();
    w.handle_update_action(UpdateAction::SwitchToInputMode, &mut hub);
    assert_eq!(w.mode, Mode::Input);
    let key = KeyEvent::plain(KeyCode::Char('q'));
    assert_eq!(w.event_to_action(&map, Event::Key(key)), Some(Action::Input(key)));
    w.handle_update_action(UpdateAction::SwitchToNormalMode, &mut hub);
    assert_eq!(w.mode, Mode::Normal);
    assert_eq!(w.event_to_action(&map, Event::Key(key)), Some(Action::Quit));
}

#[test]
fn actions_go_to_the_tab_on_show() {
    let mut hub = Hub::new();
    let mut w = window(&mut hub);
    w.handle_update_action(
        UpdateAction::UpdateTorrents(vec![Torrent {
            id: 1,
            name: "a".to_string(),
            download_dir: "/d".to_string(),
            status: TorrentStatus::Seeding,
            error: None,
        }]),
        &mut hub,
    );
    w.handle_update_action(
        UpdateAction::ProviderResult(ProviderResponse {
            provider: WhichProvider::Nyaa,
            magnets: vec![
                Magnet { title: "m".to_string(), url: "u".to_string(), seeders: 1, bytes: 2 },
                Magnet { title: "n".to_string(), url: "v".to_string(), seeders: 0, bytes: 2 },
            ],
        }),
        &mut hub,
    );
    assert_eq!(w.search_tab.table.items.len(), 2);
    assert_eq!(w.torrents_tab.table_manager.table.items.len(), 1);

    w.handle_actions(Action::Down, &mut hub);
    assert_eq!(w.torrents_tab.table_manager.table.selected, Some(0));
    assert_eq!(w.search_tab.table.selected, Some(0));
    w.handle_actions(Action::ChangeTab(2), &mut hub);
    assert_eq!(w.tabs.current_tab, CurrentTab::Search);
    w.handle_actions(Action::Down, &mut hub);
    assert_eq!(w.search_tab.table.selected, Some(1));
    assert_eq!(w.torrents_tab.table_manager.table.selected, Some(0));
}

#[test]
fn a_failure_on_show_takes_the_keyboard() {
    let mut hub = Hub::new();
    let mut w = window(&mut hub);
    w.handle_update_action(
        UpdateAction::Error(ErrorMessage {
            title: "t".to_string(),
            description: "d".to_string(),
            source: "s".to_string(),
        }),
        &mut hub,
    );
    assert!(w.error_popup.is_some());
    actions(&mut hub);
    w.handle_actions(Action::AddMagnet, &mut hub);
    w.handle_actions(Action::ChangeTab(2), &mut hub);
    assert!(matches!(w.torrents_tab.task_manager.current_task, CurrentTask::Default));
    assert_eq!(w.tabs.current_tab, CurrentTab::Torrents);
    assert_eq!(actions(&mut hub), vec![]);
    w.handle_actions(Action::Confirm, &mut hub);
    assert!(w.error_popup.is_none());
    assert_eq!(actions(&mut hub), vec![Action::Render]);
    w.handle_actions(Action::AddMagnet, &mut hub);
    assert!(matches!(w.torrents_tab.task_manager.current_task, CurrentTask::AddMagnet(_)));
}

#[test]
fn the_hard_quit_ends_the_program() {
    let mut hub = Hub::new();
    let mut w = window(&mut hub);
    w.handle_actions(Action::Quit, &mut hub);
    assert!(!w.should_quit);
    assert_eq!(actions(&mut hub), vec![Action::HardQuit]);
    w.handle_actions(Action::HardQuit, &mut hub);
    assert!(w.should_quit);
}

#[test]
fn ticks_reach_the_status_line_on_either_tab() {
    let mut hub = Hub::new();
    let mut w = window(&mut hub);
    w.handle_update_action(
        UpdateAction::StatusTaskSet(StatusTask::new_add("m".to_string())),
        &mut hub,
    );
    w.handle_actions(Action::ChangeTab(2), &mut hub);
    while hub.next_update_action().is_some() {}
    actions(&mut hub);
    w.handle_actions(Action::Tick, &mut hub);
    assert_eq!(actions(&mut hub), vec![Action::Render]);
    w.handle_actions(Action::Render, &mut hub);
    assert_eq!(actions(&mut hub), vec![]);
}

#[test]
fn every_update_asks_for_a_redraw() {
    let mut hub = Hub::new();
    let mut w = window(&mut hub);
    w.handle_update_action(UpdateAction::FreeSpace(1), &mut hub);
    w.handle_update_action(UpdateAction::SearchStarted, &mut hub);
    w.handle_update_action(UpdateAction::StatusTaskClear, &mut hub);
    assert_eq!(actions(&mut hub), vec![Action::Render; 3]);
}

#[test]
fn the_window_admits_what_the_files_popup_admits() {
    let mut hub = Hub::new();
    let mut w = window(&mut hub);
    w.handle_update_action(
        UpdateAction::UpdateTorrents(vec![Torrent {
            id: 1,
            name: "a".to_string(),
            download_dir: "/d".to_string(),
            status: TorrentStatus::Seeding,
            error: None,
        }]),
        &mut hub,
    );
    w.handle_actions(Action::Down, &mut hub);
    assert!(w.admits(Action::Select));
    w.handle_actions(Action::ShowFiles, &mut hub);
    w.handle_update_action(
        UpdateAction::UpdateCurrentTorrent(rustmission::messages::TorrentInfo {
            id: 1,
            download_dir: "/d".to_string(),
            files: vec![rustmission::messages::FileEntry {
                name: "f".to_string(),
                length: 1,
                bytes_completed: 0,
            }],
            wanted: vec![true],
            priorities: vec![rustmission::messages::Priority::Normal],
        }),
        &mut hub,
    );
    let popup = match &mut w.torrents_tab.popup_manager.current_popup {
        Some(rustmission::torrents::popups::CurrentPopup::Files(popup)) => popup,
        _ => panic!("no files popup"),
    };
    popup.prepare_render(&mut hub);
    popup.set_selected(vec!["3".to_string()]);
    assert!(w.torrents_tab.admits(Action::Up));
    assert!(!w.torrents_tab.admits(Action::Select));
    assert!(!w.admits(Action::Select));
    assert!(w.admits(Action::Tick));
    assert!(w.admits(Action::HardQuit));
    assert!(w.admits(Action::ChangeTab(2)));
    w.handle_actions(Action::ChangeTab(2), &mut hub);
    assert!(w.admits(Action::Select));
}
