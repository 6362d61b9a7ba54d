use rustmission::action::{Action, ComponentAction, KeyCode, KeyEvent};
use rustmission::hub::Hub;
use rustmission::messages::{
    Command, Magnet, OpenTarget, ProviderError, ProviderErrorKind, ProviderResponse, RpcAction,
    UpdateAction, WhichProvider,
};
use rustmission::search::aggregator::{Answer, SearchAggregator};
use rustmission::search::bottom_bar::SearchStage;
use rustmission::search::results::merge_by_seeders;
use rustmission::search::{ConfiguredProvider, ProviderState, SearchTab, SearchTabFocus};
use rustmission::tasks::add_magnet::Stage;
use rustmission::tasks::Category;

fn magnet(title: &str, seeders: u32) -> Magnet {
    Magnet {
        title: title.to_string(),
        url: format!("magnet:?xt={title}"),
        seeders,
        bytes: 1024,
    }
}

fn titles(items: &[Magnet]) -> Vec<&str> {
    items.iter().map(|m| m.title.as_str()).collect()
}

fn both() -> Vec<WhichProvider> {
    vec![WhichProvider::Knaben, WhichProvider::Nyaa]
}

fn tab(enabled: &Vec<WhichProvider>) -> SearchTab {
    let categories = vec![Category { name: "os".to_string(), default_dir: "/os".to_string() }];
    SearchTab::new(enabled, categories, "/downloads".to_string())
}

fn found(provider: WhichProvider, magnets: Vec<Magnet>) -> Answer {
    Answer::Found(ProviderResponse { provider, magnets })
}

fn failed(provider: WhichProvider) -> Answer {
    Answer::Failed(ProviderError { provider, kind: ProviderErrorKind::Html })
}

fn updates(hub: &mut Hub) -> Vec<UpdateAction> {
    let mut out = vec![];
    while let Some(u) = hub.next_update_action() {
        out.push(u);
    }
    out
}

fn actions(hub: &mut Hub) -> Vec<Action> {
    let mut out = vec![];
    while let Some(a) = hub.next_action() {
        out.push(a);
    }
    out
}

fn commands(hub: &mut Hub) -> Vec<Command> {
    let mut out = vec![];
    while let Some(c) = hub.next_command() {
        out.push(c);
    }
    out
}

fn press(code: KeyCode) -> Action {
    Action::Input(KeyEvent::plain(code))
}

fn states(tab: &SearchTab) -> Vec<ProviderState> {
    tab.configured_providers.iter().map(|p| p.provider_state.clone()).collect()
}

fn deliver(tab: &mut SearchTab, hub: &mut Hub) -> Vec<UpdateAction> {
    let published = updates(hub);
    for update in published.iter().cloned() {
        tab.handle_update_action(update);
    }
    published
}

#[test]
fn merged_results_are_ordered_by_seeders() {
    let mut items = vec![magnet("A", 3), magnet("B", 10)];
    merge_by_seeders(&mut items, vec![magnet("C", 7)]);
    assert_eq!(titles(&items), vec!["B", "C", "A"]);
}

#[test]
fn a_provider_result_is_merged_into_the_table() {
    let mut t = tab(&both());
    t.table.items = vec![magnet("A", 3), magnet("B", 10)];
    t.handle_update_action(UpdateAction::ProviderResult(ProviderResponse {
        provider: WhichProvider::Nyaa,
        magnets: vec![magnet("C", 7)],
    }));
    assert_eq!(titles(&t.table.items), vec!["B", "C", "A"]);
    assert_eq!(t.table.selected, Some(0));
    assert_eq!(states(&t), vec![ProviderState::Idle, ProviderState::Found(1)]);
}

#[test]
fn equal_seeders_keep_their_order_of_arrival() {
    let mut items = vec![];
    merge_by_seeders(&mut items, vec![magnet("a", 5), magnet("b", 5), magnet("c", 9)]);
    merge_by_seeders(&mut items, vec![magnet("d", 5), magnet("e", 9), magnet("f", 1)]);
    assert_eq!(titles(&items), vec!["c", "e", "a", "b", "d", "f"]);
    let mut same = vec![magnet("a", 5), magnet("b", 5), magnet("c", 9)];
    same.extend(vec![magnet("d", 5), magnet("e", 9), magnet("f", 1)]);
    same.sort_by(|x, y| y.seeders.cmp(&x.seeders));
    assert_eq!(titles(&same), titles(&items));
}

#[test]
fn merging_agrees_with_the_standard_stable_sort() {
    let mut seed: u32 = 12345;
    let mut next = move || {
        seed = seed.wrapping_mul(1664525).wrapping_add(1013904223);
        (seed >> 16) % 7
    };
    let mut items: Vec<Magnet> = vec![];
    let mut all: Vec<Magnet> = vec![];
    for round in 0..20 {
        let batch: Vec<Magnet> =
            (0..round % 5).map(|i| magnet(&format!("{round}-{i}"), next())).collect();
        all.extend(batch.clone());
        all.sort_by(|x, y| y.seeders.cmp(&x.seeders));
        merge_by_seeders(&mut items, batch);
        assert_eq!(items, all);
    }
}

#[test]
fn merging_nothing_still_orders_the_list() {
    let mut items = vec![magnet("A", 1), magnet("B", 2)];
    merge_by_seeders(&mut items, vec![]);
    assert_eq!(titles(&items), vec!["B", "A"]);
    let mut empty: Vec<Magnet> = vec![];
    merge_by_seeders(&mut empty, vec![]);
    assert!(empty.is_empty());
}

#[test]
fn a_new_tab_lists_every_provider_of_the_search_crate() {
    let t = tab(&vec![WhichProvider::Nyaa]);
    assert_eq!(
        t.configured_providers,
        vec![
            ConfiguredProvider {
                provider: WhichProvider::Knaben,
                provider_state: ProviderState::Idle,
                enabled: false
            },
            ConfiguredProvider {
                provider: WhichProvider::Nyaa,
                provider_state: ProviderState::Idle,
                enabled: true
            },
        ]
    );
    assert_eq!(t.aggregator.providers, vec![WhichProvider::Nyaa]);
    assert_eq!(t.focus, SearchTabFocus::List);
    assert_eq!(t.bottom_bar.search_state.enabled, 1);
    assert_eq!(t.bottom_bar.search_state.finished, 0);
    assert_eq!(t.bottom_bar.search_state.stage, SearchStage::Nothing);
    let count = magnetease::WhichProvider::all().len();
    assert_eq!(t.configured_providers.len(), count);
}

#[test]
fn the_aggregator_takes_each_provider_once() {
    let a = SearchAggregator::new(&vec![
        WhichProvider::Nyaa,
        WhichProvider::Knaben,
        WhichProvider::Nyaa,
    ]);
    assert_eq!(a.providers, vec![WhichProvider::Nyaa, WhichProvider::Knaben]);
    assert!(!a.racing);
}

#[test]
fn all_providers_answer_and_the_race_ends_behind_the_last() {
    let mut hub = Hub::new();
    let mut a = SearchAggregator::new(&both());
    a.start("ubuntu".to_string(), &mut hub);
    assert!(a.racing);
    assert_eq!(
        commands(&mut hub),
        vec![Command::StartSearch {
            generation: 1,
            phrase: "ubuntu".to_string(),
            providers: both()
        }]
    );
    assert_eq!(updates(&mut hub), vec![UpdateAction::SearchStarted]);

    a.on_answer(1, found(WhichProvider::Nyaa, vec![magnet("x", 1)]), &mut hub);
    assert!(a.racing);
    assert_eq!(
        updates(&mut hub),
        vec![UpdateAction::ProviderResult(ProviderResponse {
            provider: WhichProvider::Nyaa,
            magnets: vec![magnet("x", 1)]
        })]
    );
    a.on_answer(1, failed(WhichProvider::Knaben), &mut hub);
    assert!(!a.racing);
    assert_eq!(
        updates(&mut hub),
        vec![
            UpdateAction::ProviderError(ProviderError {
                provider: WhichProvider::Knaben,
                kind: ProviderErrorKind::Html
            }),
            UpdateAction::SearchFinished,
        ]
    );
    a.on_timeout(1, &mut hub);
    assert_eq!(updates(&mut hub), vec![]);
}

#[test]
fn one_silent_provider_times_out_alone() {
    let mut hub = Hub::new();
    let mut t = tab(&both());
    t.handle_actions(Action::Search, &mut hub);
    for c in "iso".chars() {
        t.handle_actions(press(KeyCode::Char(c)), &mut hub);
    }
    t.handle_actions(press(KeyCode::Enter), &mut hub);
    assert_eq!(
        deliver(&mut t, &mut hub),
        vec![
            UpdateAction::SwitchToInputMode,
            UpdateAction::SearchStarted,
            UpdateAction::SwitchToNormalMode
        ]
    );
    assert_eq!(states(&t), vec![ProviderState::Searching, ProviderState::Searching]);
    assert_eq!(t.bottom_bar.search_state.stage, SearchStage::Searching);

    t.aggregator.on_answer(1, found(WhichProvider::Knaben, vec![magnet("k", 4)]), &mut hub);
    deliver(&mut t, &mut hub);
    assert_eq!(states(&t), vec![ProviderState::Found(1), ProviderState::Searching]);
    assert_eq!(t.bottom_bar.search_state.finished, 1);

    t.aggregator.on_timeout(1, &mut hub);
    assert_eq!(deliver(&mut t, &mut hub), vec![UpdateAction::SearchFinished]);
    assert_eq!(states(&t), vec![ProviderState::Found(1), ProviderState::Timeout]);
    assert_eq!(t.bottom_bar.search_state.stage, SearchStage::Found(1));
    assert_eq!(t.bottom_bar.search_state.finished, 2);

    t.aggregator.on_answer(1, found(WhichProvider::Nyaa, vec![magnet("late", 9)]), &mut hub);
    t.aggregator.on_timeout(1, &mut hub);
    assert_eq!(deliver(&mut t, &mut hub), vec![]);
    assert_eq!(titles(&t.table.items), vec!["k"]);
}

#[test]
fn a_silent_provider_times_out_even_without_any_result() {
    let mut hub = Hub::new();
    let mut t = tab(&both());
    t.aggregator.start("x".to_string(), &mut hub);
    t.aggregator.on_answer(1, failed(WhichProvider::Nyaa), &mut hub);
    t.aggregator.on_timeout(1, &mut hub);
    deliver(&mut t, &mut hub);
    assert_eq!(
        states(&t),
        vec![ProviderState::Timeout, ProviderState::Error(ProviderErrorKind::Html)]
    );
    assert_eq!(t.bottom_bar.search_state.stage, SearchStage::NotFound);
}

#[test]
fn all_answering_leaves_no_timeout() {
    let mut hub = Hub::new();
    let mut t = tab(&both());
    t.aggregator.start("x".to_string(), &mut hub);
    t.aggregator.on_answer(1, found(WhichProvider::Nyaa, vec![magnet("n", 2)]), &mut hub);
    t.aggregator.on_answer(
        1,
        Answer::Failed(ProviderError {
            provider: WhichProvider::Knaben,
            kind: ProviderErrorKind::Connection("refused".to_string()),
        }),
        &mut hub,
    );
    let published = deliver(&mut t, &mut hub);
    assert_eq!(published.len(), 4);
    assert_eq!(published.last(), Some(&UpdateAction::SearchFinished));
    assert_eq!(
        published.iter().filter(|u| **u == UpdateAction::SearchFinished).count(),
        1
    );
    assert_eq!(
        states(&t),
        vec![
            ProviderState::Error(ProviderErrorKind::Connection("refused".to_string())),
            ProviderState::Found(1)
        ]
    );
}

#[test]
fn a_failure_does_not_stop_the_others() {
    let mut hub = Hub::new();
    let mut a = SearchAggregator::new(&both());
    a.start("x".to_string(), &mut hub);
    a.on_answer(1, failed(WhichProvider::Knaben), &mut hub);
    assert!(a.racing);
    assert_eq!(a.pending, vec![WhichProvider::Nyaa]);
    a.on_answer(1, found(WhichProvider::Nyaa, vec![]), &mut hub);
    assert!(!a.racing);
}

#[test]
fn answers_to_an_earlier_race_are_dropped() {
    let mut hub = Hub::new();
    let mut a = SearchAggregator::new(&both());
    a.start("first".to_string(), &mut hub);
    a.start("second".to_string(), &mut hub);
    updates(&mut hub);
    a.on_answer(1, found(WhichProvider::Nyaa, vec![magnet("old", 1)]), &mut hub);
    a.on_timeout(1, &mut hub);
    assert!(a.racing);
    assert_eq!(a.pending, both());
    assert_eq!(updates(&mut hub), vec![]);
    a.on_answer(2, found(WhichProvider::Nyaa, vec![magnet("new", 1)]), &mut hub);
    a.on_answer(2, found(WhichProvider::Nyaa, vec![magnet("twice", 1)]), &mut hub);
    assert_eq!(updates(&mut hub).len(), 1);
    assert_eq!(a.pending, vec![WhichProvider::Knaben]);
}

#[test]
fn a_race_without_providers_is_over_at_once() {
    let mut hub = Hub::new();
    let mut a = SearchAggregator::new(&vec![]);
    a.start("x".to_string(), &mut hub);
    assert!(!a.racing);
    assert_eq!(updates(&mut hub), vec![UpdateAction::SearchStarted, UpdateAction::SearchFinished]);
}

#[test]
fn disabled_providers_stay_idle() {
    let mut hub = Hub::new();
    let mut t = tab(&vec![WhichProvider::Knaben]);
    t.aggregator.start("x".to_string(), &mut hub);
    t.aggregator.on_timeout(1, &mut hub);
    deliver(&mut t, &mut hub);
    assert_eq!(states(&t), vec![ProviderState::Timeout, ProviderState::Idle]);
}

#[test]
fn a_new_search_empties_the_list() {
    let mut t = tab(&both());
    t.handle_update_action(UpdateAction::ProviderResult(ProviderResponse {
        provider: WhichProvider::Nyaa,
        magnets: vec![magnet("a", 1)],
    }));
    assert_eq!(t.table.selected, Some(0));
    t.handle_update_action(UpdateAction::SearchStarted);
    assert!(t.table.items.is_empty());
    assert_eq!(t.table.selected, None);
    t.handle_update_action(UpdateAction::SearchFinished);
    assert_eq!(t.bottom_bar.search_state.stage, SearchStage::NotFound);
}

#[test]
fn enter_on_an_empty_phrase_starts_nothing() {
    let mut hub = Hub::new();
    let mut t = tab(&both());
    t.handle_actions(Action::Search, &mut hub);
    assert_eq!(t.focus, SearchTabFocus::Search);
    updates(&mut hub);
    t.handle_actions(press(KeyCode::Enter), &mut hub);
    assert_eq!(t.focus, SearchTabFocus::Search);
    assert_eq!(updates(&mut hub), vec![]);
    assert_eq!(commands(&mut hub), vec![]);
    t.handle_actions(press(KeyCode::Esc), &mut hub);
    assert_eq!(t.focus, SearchTabFocus::List);
    assert_eq!(updates(&mut hub), vec![UpdateAction::SwitchToNormalMode]);
}

#[test]
fn the_providers_popup_takes_every_action_and_follows_the_states() {
    let mut hub = Hub::new();
    let mut t = tab(&both());
    t.handle_update_action(UpdateAction::ProviderResult(ProviderResponse {
        provider: WhichProvider::Nyaa,
        magnets: vec![magnet("a", 1), magnet("b", 2)],
    }));
    t.handle_actions(Action::ShowProvidersInfo, &mut hub);
    assert!(t.popup_manager.is_showing_popup());
    actions(&mut hub);
    t.handle_actions(Action::Down, &mut hub);
    t.handle_actions(Action::Search, &mut hub);
    assert_eq!(t.table.selected, Some(0));
    assert_eq!(t.focus, SearchTabFocus::List);
    assert_eq!(actions(&mut hub), vec![]);
    assert_eq!(updates(&mut hub), vec![]);

    t.handle_update_action(UpdateAction::ProviderError(ProviderError {
        provider: WhichProvider::Knaben,
        kind: ProviderErrorKind::Html,
    }));
    match &t.popup_manager.current_popup {
        Some(rustmission::search::popups::CurrentPopup::Providers(p)) => {
            assert_eq!(p.providers, t.configured_providers)
        }
        None => panic!("no popup"),
    }
    t.handle_actions(Action::Close, &mut hub);
    assert!(!t.popup_manager.is_showing_popup());
    assert_eq!(actions(&mut hub), vec![Action::Render]);
}

#[test]
fn confirm_adds_the_result_under_the_cursor() {
    let mut hub = Hub::new();
    let mut t = tab(&both());
    t.handle_actions(Action::Confirm, &mut hub);
    assert!(!t.bottom_bar.requires_input());
    t.handle_update_action(UpdateAction::ProviderResult(ProviderResponse {
        provider: WhichProvider::Nyaa,
        magnets: vec![magnet("a", 1), magnet("b", 2)],
    }));
    t.handle_actions(Action::Confirm, &mut hub);
    assert!(t.bottom_bar.requires_input());
    match &t.bottom_bar.task {
        Some(task) => {
            assert_eq!(task.input_magnet_mgr.text(), "magnet:?xt=b");
            assert_eq!(task.stage, Stage::Category);
        }
        None => panic!("no wizard"),
    }
    assert_eq!(updates(&mut hub), vec![UpdateAction::SwitchToInputMode]);
    t.handle_actions(press(KeyCode::Enter), &mut hub);
    t.handle_actions(press(KeyCode::Enter), &mut hub);
    assert!(!t.bottom_bar.requires_input());
    assert_eq!(
        hub.next_rpc_action(),
        Some(RpcAction::Add {
            magnet: "magnet:?xt=b".to_string(),
            directory: Some("/downloads".to_string()),
            category: None,
        })
    );
    let published = updates(&mut hub);
    assert_eq!(published.last(), Some(&UpdateAction::SwitchToNormalMode));
}

#[test]
fn a_quit_is_passed_on_and_links_go_to_the_desktop() {
    let mut hub = Hub::new();
    let mut t = tab(&both());
    assert_eq!(t.handle_actions(Action::Quit, &mut hub), ComponentAction::Nothing);
    assert_eq!(actions(&mut hub), vec![Action::HardQuit, Action::Quit]);
    t.handle_actions(Action::HardQuit, &mut hub);
    assert_eq!(actions(&mut hub), vec![Action::HardQuit]);
    t.handle_actions(Action::XdgOpen, &mut hub);
    assert_eq!(commands(&mut hub), vec![]);
    t.handle_update_action(UpdateAction::ProviderResult(ProviderResponse {
        provider: WhichProvider::Nyaa,
        magnets: vec![magnet("a", 1)],
    }));
    t.handle_actions(Action::XdgOpen, &mut hub);
    assert_eq!(
        commands(&mut hub),
        vec![Command::Open { path: "magnet:?xt=a".to_string(), target: OpenTarget::Link }]
    );
}

#[test]
fn the_list_scrolls_by_rows_and_pages() {
    let mut hub = Hub::new();
    let mut t = tab(&both());
    t.handle_update_action(UpdateAction::ProviderResult(ProviderResponse {
        provider: WhichProvider::Nyaa,
        magnets: (0..10).map(|i| magnet(&format!("m{i}"), i)).collect(),
    }));
    t.set_displaying_no(4);
    t.handle_actions(Action::ScrollDownPage, &mut hub);
    assert_eq!(t.table.selected, Some(4));
    t.handle_actions(Action::ScrollDownBy(2), &mut hub);
    assert_eq!(t.table.selected, Some(6));
    t.handle_actions(Action::ScrollUpPage, &mut hub);
    assert_eq!(t.table.selected, Some(2));
    t.handle_actions(Action::ScrollUpBy(1), &mut hub);
    t.handle_actions(Action::Up, &mut hub);
    t.handle_actions(Action::Up, &mut hub);
    assert_eq!(t.table.selected, Some(9));
    t.handle_actions(Action::Home, &mut hub);
    assert_eq!(t.table.selected, Some(0));
    t.handle_actions(Action::End, &mut hub);
    assert_eq!(t.table.selected, Some(9));
    t.handle_actions(Action::Down, &mut hub);
    assert_eq!(t.table.selected, Some(0));
    t.handle_actions(Action::ChangeFocus, &mut hub);
    assert_eq!(t.focus, SearchTabFocus::Search);
    assert_eq!(actions(&mut hub).len(), 10);
}

#[test]
fn a_key_that_asks_for_an_edit_redraws_the_phrase_box() {
    let mut hub = Hub::new();
    let mut t = tab(&both());
    t.handle_actions(Action::Search, &mut hub);
    actions(&mut hub);
    t.handle_actions(press(KeyCode::Backspace), &mut hub);
    assert_eq!(t.input.text(), "");
    assert_eq!(actions(&mut hub), vec![Action::Render]);
    t.handle_actions(press(KeyCode::Char('a')), &mut hub);
    assert_eq!(t.input.text(), "a");
    assert_eq!(actions(&mut hub), vec![Action::Render]);
    t.handle_actions(press(KeyCode::Right), &mut hub);
    assert_eq!(actions(&mut hub), vec![Action::Render]);
    t.handle_actions(press(KeyCode::Tab), &mut hub);
    t.handle_actions(press(KeyCode::Up), &mut hub);
    t.handle_actions(press(KeyCode::Other), &mut hub);
    assert_eq!(t.input.text(), "a");
    assert_eq!(actions(&mut hub), vec![]);
}
