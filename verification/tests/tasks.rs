use rustmission::action::{Action, ComponentAction, KeyCode, KeyEvent};
use rustmission::hub::Hub;
use rustmission::messages::{RpcAction, StatusTask, StatusTaskKind, UpdateAction};
use rustmission::tasks::add_magnet::{AddMagnet, Stage};
use rustmission::tasks::change_category::ChangeCategory;
use rustmission::tasks::delete_torrent::Delete;
use rustmission::tasks::filter::Filter;
use rustmission::tasks::move_torrent::Move;
use rustmission::tasks::rename::Rename;
use rustmission::tasks::status::{CurrentTaskState, Status, STATUS_TICKS};
use rustmission::tasks::{lookup_category, text_is, Category, TorrentSelection};

fn key(code: KeyCode) -> Action {
    Action::Input(KeyEvent::plain(code))
}

fn categories() -> Vec<Category> {
    vec![
        Category { name: "films".to_string(), default_dir: "/data/films".to_string() },
        Category { name: "music".to_string(), default_dir: "/data/music".to_string() },
    ]
}

fn drained_actions(hub: &mut Hub) -> Vec<Action> {
    let mut out = vec![];
    while let Some(a) = hub.next_action() {
        out.push(a);
    }
    out
}

fn drained_updates(hub: &mut Hub) -> Vec<UpdateAction> {
    let mut out = vec![];
    while let Some(u) = hub.next_update_action() {
        out.push(u);
    }
    out
}

fn drained_requests(hub: &mut Hub) -> Vec<RpcAction> {
    let mut out = vec![];
    while let Some(r) = hub.next_rpc_action() {
        out.push(r);
    }
    out
}

#[test]
fn lookup_finds_the_first_category_of_that_name() {
    let mut list = categories();
    list.push(Category { name: "films".to_string(), default_dir: "/other".to_string() });
    assert_eq!(lookup_category(&list, &"films".to_string()), Some(0));
    assert_eq!(lookup_category(&list, &"music".to_string()), Some(1));
    assert_eq!(lookup_category(&list, &"Films".to_string()), None);
    assert_eq!(lookup_category(&vec![], &"films".to_string()), None);
}

#[test]
fn text_is_compares_whole_texts() {
    assert!(text_is(&"yes".to_string(), "yes"));
    assert!(!text_is(&"yes".to_string(), "y"));
    assert!(!text_is(&"".to_string(), "y"));
}

#[test]
fn selection_ids_count_and_label() {
    let one = TorrentSelection::Single(4, "debian.iso".to_string());
    assert_eq!(one.ids(), vec![4]);
    assert_eq!(one.count(), 1);
    assert_eq!(one.label(), "debian.iso");
    let many = TorrentSelection::Many(vec![9, 3, 12]);
    assert_eq!(many.ids(), vec![9, 3, 12]);
    assert_eq!(many.count(), 3);
    assert_eq!(many.label(), "3 torrents");
}

#[test]
fn add_magnet_walks_through_its_three_questions() {
    let mut hub = Hub::new();
    let mut task = AddMagnet::new(categories(), "/downloads".to_string());
    assert_eq!(task.stage, Stage::Magnet);
    assert_eq!(task.input_location_mgr.text(), "/downloads");

    for c in "magnet:x".chars() {
        assert_eq!(task.handle_actions(key(KeyCode::Char(c)), &mut hub), ComponentAction::Nothing);
    }
    assert_eq!(drained_actions(&mut hub), vec![Action::Render; 8]);
    assert_eq!(task.handle_actions(key(KeyCode::Enter), &mut hub), ComponentAction::Nothing);
    assert_eq!(task.stage, Stage::Category);

    for c in "music".chars() {
        task.handle_actions(key(KeyCode::Char(c)), &mut hub);
    }
    assert_eq!(task.handle_actions(key(KeyCode::Enter), &mut hub), ComponentAction::Nothing);
    assert_eq!(task.stage, Stage::Location);
    assert_eq!(task.input_location_mgr.text(), "/data/music");
    assert_eq!(task.input_location_mgr.prompt, "Directory: ");

    drained_actions(&mut hub);
    assert_eq!(task.handle_actions(key(KeyCode::Enter), &mut hub), ComponentAction::Quit);
    assert_eq!(
        drained_requests(&mut hub),
        vec![RpcAction::Add {
            magnet: "magnet:x".to_string(),
            directory: Some("/data/music".to_string()),
            category: Some("music".to_string()),
        }]
    );
    assert_eq!(
        drained_updates(&mut hub),
        vec![UpdateAction::StatusTaskSet(StatusTask::new_add("magnet:x".to_string()))]
    );
    assert_eq!(drained_actions(&mut hub), vec![]);
}

#[test]
fn add_magnet_skips_the_category_when_none_is_configured() {
    let mut hub = Hub::new();
    let mut task = AddMagnet::new(vec![], "/d".to_string());
    task.handle_actions(key(KeyCode::Char('m')), &mut hub);
    task.handle_actions(key(KeyCode::Enter), &mut hub);
    assert_eq!(task.stage, Stage::Location);
    assert_eq!(task.handle_actions(key(KeyCode::Enter), &mut hub), ComponentAction::Quit);
    assert_eq!(
        drained_requests(&mut hub),
        vec![RpcAction::Add {
            magnet: "m".to_string(),
            directory: Some("/d".to_string()),
            category: None,
        }]
    );
}

#[test]
fn add_magnet_keeps_asking_for_an_unknown_category() {
    let mut hub = Hub::new();
    let mut task = AddMagnet::new(categories(), "/d".to_string()).magnet("m".to_string());
    assert_eq!(task.stage, Stage::Category);
    assert_eq!(task.input_magnet_mgr.text(), "m");
    for c in "games".chars() {
        task.handle_actions(key(KeyCode::Char(c)), &mut hub);
    }
    drained_actions(&mut hub);
    assert_eq!(task.handle_actions(key(KeyCode::Enter), &mut hub), ComponentAction::Nothing);
    assert_eq!(task.stage, Stage::Category);
    assert_eq!(task.input_category_mgr.prompt, "Category (games not found): ");
    assert_eq!(task.input_category_mgr.text(), "games");
    assert_eq!(drained_actions(&mut hub), vec![Action::Render]);
}

#[test]
fn add_magnet_with_an_empty_category_keeps_the_directory() {
    let mut hub = Hub::new();
    let mut task = AddMagnet::new(categories(), "/d".to_string()).magnet("m".to_string());
    assert_eq!(task.handle_actions(key(KeyCode::Enter), &mut hub), ComponentAction::Nothing);
    assert_eq!(task.stage, Stage::Location);
    assert_eq!(task.input_location_mgr.text(), "/d");
}

#[test]
fn add_magnet_gives_up_on_esc_at_every_question() {
    let mut hub = Hub::new();
    let mut first = AddMagnet::new(categories(), "/d".to_string());
    assert_eq!(first.handle_actions(key(KeyCode::Esc), &mut hub), ComponentAction::Quit);
    let mut second = AddMagnet::new(categories(), "/d".to_string()).magnet("m".to_string());
    assert_eq!(second.handle_actions(key(KeyCode::Esc), &mut hub), ComponentAction::Quit);
    let mut third = AddMagnet::new(vec![], "/d".to_string()).magnet("m".to_string());
    assert_eq!(third.stage, Stage::Location);
    assert_eq!(third.handle_actions(key(KeyCode::Esc), &mut hub), ComponentAction::Quit);
    assert_eq!(drained_requests(&mut hub), vec![]);
    assert_eq!(drained_updates(&mut hub), vec![]);
    assert_eq!(drained_actions(&mut hub), vec![]);
}

#[test]
fn add_magnet_ignores_what_is_not_text() {
    let mut hub = Hub::new();
    let mut task = AddMagnet::new(categories(), "/d".to_string());
    for action in [Action::Up, Action::Quit, Action::Confirm, Action::Tick, Action::Close] {
        assert_eq!(task.handle_actions(action, &mut hub), ComponentAction::Nothing);
    }
    assert_eq!(task.stage, Stage::Magnet);
    assert_eq!(drained_actions(&mut hub), vec![]);
}

#[test]
fn filter_applies_every_edit() {
    let mut hub = Hub::new();
    let mut task = Filter::new(&None);
    assert_eq!(task.input.prompt, "Search: ");
    assert_eq!(task.handle_actions(key(KeyCode::Char('d')), &mut hub), ComponentAction::Nothing);
    assert_eq!(task.handle_actions(key(KeyCode::Char('e')), &mut hub), ComponentAction::Nothing);
    assert_eq!(task.handle_actions(key(KeyCode::Backspace), &mut hub), ComponentAction::Nothing);
    assert_eq!(
        drained_updates(&mut hub),
        vec![
            UpdateAction::SearchFilterApply("d".to_string()),
            UpdateAction::SearchFilterApply("de".to_string()),
            UpdateAction::SearchFilterApply("d".to_string()),
        ]
    );
}

#[test]
fn filter_sends_nothing_for_a_key_that_changes_nothing() {
    let mut hub = Hub::new();
    let mut task = Filter::new(&None);
    assert_eq!(task.handle_actions(key(KeyCode::Backspace), &mut hub), ComponentAction::Nothing);
    assert_eq!(task.handle_actions(key(KeyCode::Tab), &mut hub), ComponentAction::Nothing);
    assert_eq!(task.handle_actions(Action::Up, &mut hub), ComponentAction::Nothing);
    assert_eq!(drained_updates(&mut hub), vec![]);
}

#[test]
fn filter_closes_on_enter_and_esc_and_clears_when_empty() {
    let mut hub = Hub::new();
    let mut empty = Filter::new(&None);
    assert_eq!(empty.handle_actions(key(KeyCode::Enter), &mut hub), ComponentAction::Quit);
    assert_eq!(drained_updates(&mut hub), vec![UpdateAction::SearchFilterClear]);
    let mut empty = Filter::new(&None);
    assert_eq!(empty.handle_actions(key(KeyCode::Esc), &mut hub), ComponentAction::Quit);
    assert_eq!(drained_updates(&mut hub), vec![UpdateAction::SearchFilterClear]);

    let mut held = Filter::new(&Some("deb".to_string()));
    assert_eq!(held.input.text(), "deb");
    assert_eq!(held.handle_actions(key(KeyCode::Enter), &mut hub), ComponentAction::Quit);
    assert_eq!(drained_updates(&mut hub), vec![]);
}

#[test]
fn delete_with_files_on_yes_or_no_answer() {
    for answer in ["", "y", "Y", "yes", "Yes", "YES"] {
        let mut hub = Hub::new();
        let mut task = Delete::new(TorrentSelection::Many(vec![1, 2]), false);
        for c in answer.chars() {
            task.handle_actions(key(KeyCode::Char(c)), &mut hub);
        }
        assert_eq!(task.handle_actions(key(KeyCode::Enter), &mut hub), ComponentAction::Quit);
        assert_eq!(
            drained_requests(&mut hub),
            vec![RpcAction::Delete { ids: vec![1, 2], with_files: true }],
            "{answer}"
        );
        assert_eq!(
            drained_updates(&mut hub),
            vec![UpdateAction::StatusTaskSet(StatusTask::new_delete("2 torrents".to_string()))]
        );
    }
}

#[test]
fn delete_without_files_on_no() {
    for answer in ["n", "N", "no", "No", "NO"] {
        let mut hub = Hub::new();
        let mut task =
            Delete::new(TorrentSelection::Single(5, "debian.iso".to_string()), false);
        for c in answer.chars() {
            task.handle_actions(key(KeyCode::Char(c)), &mut hub);
        }
        assert_eq!(task.handle_actions(key(KeyCode::Enter), &mut hub), ComponentAction::Quit);
        assert_eq!(
            drained_requests(&mut hub),
            vec![RpcAction::Delete { ids: vec![5], with_files: false }],
            "{answer}"
        );
        assert_eq!(
            drained_updates(&mut hub),
            vec![UpdateAction::StatusTaskSet(StatusTask::new_delete("debian.iso".to_string()))]
        );
    }
}

#[test]
fn delete_waits_for_a_clear_answer_and_esc_cancels() {
    let mut hub = Hub::new();
    let mut task = Delete::new(TorrentSelection::Many(vec![1]), false);
    task.handle_actions(key(KeyCode::Char('x')), &mut hub);
    assert_eq!(task.handle_actions(key(KeyCode::Enter), &mut hub), ComponentAction::Nothing);
    assert_eq!(drained_requests(&mut hub), vec![]);
    assert_eq!(task.handle_actions(key(KeyCode::Esc), &mut hub), ComponentAction::Quit);
    assert_eq!(drained_requests(&mut hub), vec![]);
    assert_eq!(drained_updates(&mut hub), vec![]);
}

#[test]
fn move_requests_the_directory_entered() {
    let mut hub = Hub::new();
    let mut task = Move::new(TorrentSelection::Many(vec![7, 8]), "/old".to_string());
    assert_eq!(task.input_mgr.prompt, "New directory: ");
    for c in "er".chars() {
        task.handle_actions(key(KeyCode::Char(c)), &mut hub);
    }
    assert_eq!(task.handle_actions(key(KeyCode::Enter), &mut hub), ComponentAction::Quit);
    assert_eq!(
        drained_requests(&mut hub),
        vec![RpcAction::Move { ids: vec![7, 8], directory: "/older".to_string() }]
    );
    assert_eq!(
        drained_updates(&mut hub),
        vec![UpdateAction::StatusTaskSet(StatusTask::new_move("/older".to_string()))]
    );
    let mut cancelled = Move::new(TorrentSelection::Many(vec![7]), "/old".to_string());
    assert_eq!(cancelled.handle_actions(key(KeyCode::Esc), &mut hub), ComponentAction::Quit);
    assert_eq!(drained_requests(&mut hub), vec![]);
}

#[test]
fn rename_requests_a_changed_name_only() {
    let mut hub = Hub::new();
    let mut same = Rename::new(3, "a.iso".to_string());
    assert_eq!(same.input_mgr.text(), "a.iso");
    assert_eq!(same.handle_actions(key(KeyCode::Enter), &mut hub), ComponentAction::Quit);
    assert_eq!(drained_requests(&mut hub), vec![]);
    assert_eq!(drained_updates(&mut hub), vec![]);

    let mut changed = Rename::new(3, "a.iso".to_string());
    changed.handle_actions(key(KeyCode::Char('2')), &mut hub);
    assert_eq!(changed.handle_actions(key(KeyCode::Enter), &mut hub), ComponentAction::Quit);
    assert_eq!(
        drained_requests(&mut hub),
        vec![RpcAction::Rename {
            id: 3,
            current_name: "a.iso".to_string(),
            new_name: "a.iso2".to_string(),
        }]
    );
    assert_eq!(
        drained_updates(&mut hub),
        vec![UpdateAction::StatusTaskSet(StatusTask::new(
            StatusTaskKind::Rename,
            "a.iso".to_string()
        ))]
    );
}

#[test]
fn change_category_takes_known_names_only() {
    let mut hub = Hub::new();
    let mut task = ChangeCategory::new(TorrentSelection::Many(vec![1, 2]), categories());
    for c in "film".chars() {
        task.handle_actions(key(KeyCode::Char(c)), &mut hub);
    }
    assert_eq!(task.handle_actions(key(KeyCode::Enter), &mut hub), ComponentAction::Nothing);
    assert_eq!(task.input_mgr.prompt, "Category (film not found): ");
    assert_eq!(drained_requests(&mut hub), vec![]);
    task.handle_actions(key(KeyCode::Char('s')), &mut hub);
    assert_eq!(task.handle_actions(key(KeyCode::Enter), &mut hub), ComponentAction::Quit);
    assert_eq!(
        drained_requests(&mut hub),
        vec![RpcAction::ChangeCategory { ids: vec![1, 2], category: "films".to_string() }]
    );
    assert_eq!(
        drained_updates(&mut hub),
        vec![UpdateAction::StatusTaskSet(StatusTask::new(
            StatusTaskKind::ChangeCategory,
            "films".to_string()
        ))]
    );
}

#[test]
fn status_spins_while_loading() {
    let mut hub = Hub::new();
    let mut status = Status::new(
        StatusTask::new_add("m".to_string()),
        CurrentTaskState::Loading { frame: 254 },
    );
    assert!(status.is_in_progress());
    status.tick(&mut hub);
    assert_eq!(status.task_status, CurrentTaskState::Loading { frame: 255 });
    assert_eq!(status.handle_actions(Action::Tick, &mut hub), ComponentAction::Nothing);
    assert_eq!(status.task_status, CurrentTaskState::Loading { frame: 0 });
    assert_eq!(drained_actions(&mut hub), vec![Action::Render, Action::Render]);
    assert_eq!(drained_updates(&mut hub), vec![]);
}

#[test]
fn status_asks_to_be_cleared_after_its_time() {
    let mut hub = Hub::new();
    let mut status =
        Status::new(StatusTask::new_add("m".to_string()), CurrentTaskState::Loading { frame: 0 });
    status.set_success();
    assert!(!status.is_in_progress());
    for _ in 0..STATUS_TICKS - 1 {
        status.tick(&mut hub);
    }
    assert_eq!(drained_updates(&mut hub), vec![]);
    status.tick(&mut hub);
    assert_eq!(drained_updates(&mut hub), vec![UpdateAction::StatusTaskClear]);
    assert_eq!(status.task_status, CurrentTaskState::Success { shown_for: STATUS_TICKS });

    status.set_failure();
    assert_eq!(status.task_status, CurrentTaskState::Failure { shown_for: 0 });
    for _ in 0..STATUS_TICKS {
        status.tick(&mut hub);
    }
    assert_eq!(drained_updates(&mut hub), vec![UpdateAction::StatusTaskClear]);
}

#[test]
fn status_takes_no_keys() {
    let mut hub = Hub::new();
    let mut status =
        Status::new(StatusTask::new_add("m".to_string()), CurrentTaskState::Loading { frame: 0 });
    assert_eq!(status.handle_actions(key(KeyCode::Esc), &mut hub), ComponentAction::Nothing);
    assert_eq!(status.handle_actions(Action::Quit, &mut hub), ComponentAction::Nothing);
    assert_eq!(drained_actions(&mut hub), vec![]);
}
