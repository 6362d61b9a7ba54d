use rustmission::action::{Action, ComponentAction, KeyCode, KeyEvent};
use rustmission::hub::Hub;
use rustmission::messages::{
    StatusTask, Torrent, TorrentStatus, UpdateAction,
};
use rustmission::task_manager::{CurrentTask, TaskManager};
use rustmission::tasks::status::CurrentTaskState;
use rustmission::tasks::{Category, TorrentSelection};

fn press(code: KeyCode) -> Action {
    Action::Input(KeyEvent::plain(code))
}

fn updates(hub: &mut Hub) -> Vec<UpdateAction> {
    let mut out = vec![];
    while let Some(u) = hub.next_update_action() {
        out.push(u);
    }
    out
}

fn manager() -> TaskManager {
    TaskManager::new(vec![Category { name: "c".to_string(), default_dir: "/c".to_string() }])
}

#[test]
fn a_new_manager_idles() {
    let m = manager();
    assert!(matches!(m.current_task, CurrentTask::Default));
    assert_eq!(m.selection_count, 0);
    assert!(!m.is_selection_task());
    assert!(!m.is_status_task_in_progress());
}

#[test]
fn every_text_task_switches_to_input_mode() {
    let mut hub = Hub::new();
    let mut m = manager();
    m.add_magnet("/d".to_string(), &mut hub);
    assert!(matches!(m.current_task, CurrentTask::AddMagnet(_)));
    m.search(&None, &mut hub);
    assert!(matches!(m.current_task, CurrentTask::Filter(_)));
    m.delete_torrents(TorrentSelection::Many(vec![1]), &mut hub);
    assert!(matches!(m.current_task, CurrentTask::Delete(_)));
    m.move_torrent(TorrentSelection::Many(vec![1]), "/d".to_string(), &mut hub);
    assert!(matches!(m.current_task, CurrentTask::Move(_)));
    m.rename(1, "n".to_string(), &mut hub);
    assert!(matches!(m.current_task, CurrentTask::Rename(_)));
    m.change_category(TorrentSelection::Many(vec![1]), &mut hub);
    assert!(matches!(m.current_task, CurrentTask::ChangeCategory(_)));
    assert_eq!(updates(&mut hub), vec![UpdateAction::SwitchToInputMode; 6]);
}

#[test]
fn delete_torrent_asks_about_one_torrent() {
    let mut hub = Hub::new();
    let mut m = manager();
    let torrent = Torrent {
        id: 11,
        name: "t".to_string(),
        download_dir: "/d".to_string(),
        status: TorrentStatus::Seeding,
        error: None,
    };
    m.delete_torrent(&torrent, true, &mut hub);
    match &m.current_task {
        CurrentTask::Delete(task) => {
            assert!(task.delete_with_files);
            assert_eq!(task.torrents_to_delete, TorrentSelection::Single(11, "t".to_string()));
        }
        _ => panic!("no delete task"),
    }
    assert_eq!(updates(&mut hub), vec![UpdateAction::SwitchToInputMode]);
}

#[test]
fn a_task_that_quits_is_replaced_by_the_idle_state() {
    let mut hub = Hub::new();
    let mut m = manager();
    m.search(&None, &mut hub);
    updates(&mut hub);
    assert_eq!(m.handle_actions(press(KeyCode::Char('a')), &mut hub), ComponentAction::Nothing);
    assert!(matches!(m.current_task, CurrentTask::Filter(_)));
    assert_eq!(m.handle_actions(press(KeyCode::Esc), &mut hub), ComponentAction::Nothing);
    assert!(matches!(m.current_task, CurrentTask::Default));
    assert_eq!(
        updates(&mut hub),
        vec![UpdateAction::SearchFilterApply("a".to_string()), UpdateAction::SwitchToNormalMode]
    );
}

#[test]
fn a_held_selection_comes_back_when_a_task_ends() {
    let mut hub = Hub::new();
    let mut m = manager();
    m.select(2);
    assert!(matches!(m.current_task, CurrentTask::Selection(2)));
    assert!(m.is_selection_task());
    m.delete_torrents(TorrentSelection::Many(vec![1, 2]), &mut hub);
    assert_eq!(m.handle_actions(press(KeyCode::Esc), &mut hub), ComponentAction::Nothing);
    assert!(matches!(m.current_task, CurrentTask::Selection(2)));
    m.select(0);
    assert!(matches!(m.current_task, CurrentTask::Default));
}

#[test]
fn idle_states_take_no_action() {
    let mut hub = Hub::new();
    let mut m = manager();
    assert_eq!(m.handle_actions(press(KeyCode::Char('a')), &mut hub), ComponentAction::Nothing);
    assert!(matches!(m.current_task, CurrentTask::Default));
    m.sort();
    assert_eq!(m.handle_actions(Action::Confirm, &mut hub), ComponentAction::Nothing);
    assert!(matches!(m.current_task, CurrentTask::Sort));
    assert_eq!(updates(&mut hub), vec![]);
    assert_eq!(hub.next_action(), None);
}

#[test]
fn cancel_in_default_does_nothing() {
    let mut hub = Hub::new();
    let mut m = manager();
    m.cancel_task(&mut hub);
    m.handle_update_action(UpdateAction::StatusTaskClear, &mut hub);
    assert!(matches!(m.current_task, CurrentTask::Default));
    assert_eq!(updates(&mut hub), vec![]);
}

#[test]
fn a_status_is_set_marked_and_cleared() {
    let mut hub = Hub::new();
    let mut m = manager();
    m.handle_update_action(
        UpdateAction::StatusTaskSet(StatusTask::new_add("m".to_string())),
        &mut hub,
    );
    assert!(m.is_status_task_in_progress());
    assert_eq!(updates(&mut hub), vec![UpdateAction::SwitchToNormalMode]);

    m.handle_update_action(UpdateAction::StatusTaskSuccess, &mut hub);
    assert!(!m.is_status_task_in_progress());
    match &m.current_task {
        CurrentTask::Status(s) => {
            assert_eq!(s.task_status, CurrentTaskState::Success { shown_for: 0 })
        }
        _ => panic!("no status"),
    }
    m.handle_update_action(UpdateAction::StatusTaskFailure, &mut hub);
    match &m.current_task {
        CurrentTask::Status(s) => {
            assert_eq!(s.task_status, CurrentTaskState::Failure { shown_for: 0 })
        }
        _ => panic!("no status"),
    }
    m.handle_update_action(UpdateAction::StatusTaskClear, &mut hub);
    assert!(matches!(m.current_task, CurrentTask::Default));
    assert_eq!(updates(&mut hub), vec![UpdateAction::SwitchToNormalMode]);
}

#[test]
fn a_status_on_show_is_not_restarted() {
    let mut hub = Hub::new();
    let mut m = manager();
    m.handle_update_action(
        UpdateAction::StatusTaskSet(StatusTask::new_add("first".to_string())),
        &mut hub,
    );
    m.tick(&mut hub);
    m.handle_update_action(
        UpdateAction::StatusTaskSet(StatusTask::new_add("second".to_string())),
        &mut hub,
    );
    m.handle_update_action(
        UpdateAction::StatusTaskSetSuccess(StatusTask::new_open("third".to_string())),
        &mut hub,
    );
    match &m.current_task {
        CurrentTask::Status(s) => {
            assert_eq!(s.task.what, "first");
            assert_eq!(s.task_status, CurrentTaskState::Loading { frame: 1 });
        }
        _ => panic!("no status"),
    }
    assert_eq!(updates(&mut hub), vec![UpdateAction::SwitchToNormalMode]);
}

#[test]
fn a_status_takes_over_from_a_text_task() {
    let mut hub = Hub::new();
    let mut m = manager();
    m.search(&None, &mut hub);
    m.handle_update_action(
        UpdateAction::StatusTaskSetSuccess(StatusTask::new_open("/p".to_string())),
        &mut hub,
    );
    match &m.current_task {
        CurrentTask::Status(s) => {
            assert_eq!(s.task_status, CurrentTaskState::Success { shown_for: 0 })
        }
        _ => panic!("no status"),
    }
    assert_eq!(
        updates(&mut hub),
        vec![UpdateAction::SwitchToInputMode, UpdateAction::SwitchToNormalMode]
    );
}

#[test]
fn status_marks_without_a_status_do_nothing() {
    let mut hub = Hub::new();
    let mut m = manager();
    m.handle_update_action(UpdateAction::StatusTaskSuccess, &mut hub);
    m.handle_update_action(UpdateAction::StatusTaskFailure, &mut hub);
    m.handle_update_action(UpdateAction::SearchStarted, &mut hub);
    assert!(matches!(m.current_task, CurrentTask::Default));
    assert_eq!(updates(&mut hub), vec![]);
}

#[test]
fn the_keyboard_mode_follows_the_task_over_a_run() {
    let mut hub = Hub::new();
    let mut m = manager();
    let mut input_mode = false;
    let steps: Vec<Box<dyn Fn(&mut TaskManager, &mut Hub)>> = vec![
        Box::new(|m, h| m.add_magnet("/d".to_string(), h)),
        Box::new(|m, h| {
            m.handle_actions(press(KeyCode::Char('x')), h);
        }),
        Box::new(|m, h| {
            m.handle_actions(press(KeyCode::Esc), h);
        }),
        Box::new(|m, h| m.search(&None, h)),
        Box::new(|m, h| {
            m.handle_update_action(
                UpdateAction::StatusTaskSet(StatusTask::new_add("a".to_string())),
                h,
            )
        }),
        Box::new(|m, h| m.tick(h)),
        Box::new(|m, h| m.handle_update_action(UpdateAction::StatusTaskClear, h)),
        Box::new(|m, h| m.rename(1, "n".to_string(), h)),
        Box::new(|m, h| m.cancel_task(h)),
    ];
    for step in steps {
        step(&mut m, &mut hub);
        for update in updates(&mut hub) {
            match update {
                UpdateAction::SwitchToInputMode => input_mode = true,
                UpdateAction::SwitchToNormalMode => input_mode = false,
                _ => {}
            }
        }
        let takes_text = matches!(
            m.current_task,
            CurrentTask::AddMagnet(_)
                | CurrentTask::Delete(_)
                | CurrentTask::Rename(_)
                | CurrentTask::Filter(_)
                | CurrentTask::Move(_)
                | CurrentTask::ChangeCategory(_)
        );
        assert_eq!(input_mode, takes_text);
    }
}
