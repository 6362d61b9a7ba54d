use rustmission::action::Action;
use rustmission::hub::Hub;
use rustmission::messages::{Command, RpcAction, UpdateAction};

#[test]
fn a_new_hub_is_empty() {
    let mut hub = Hub::new();
    assert_eq!(hub.next_action(), None);
    assert_eq!(hub.next_update_action(), None);
    assert_eq!(hub.next_rpc_action(), None);
    assert_eq!(hub.next_command(), None);
}

#[test]
fn each_queue_is_first_in_first_out() {
    let mut hub = Hub::new();
    hub.send_action(Action::Up);
    hub.send_action(Action::Down);
    hub.send_update_action(UpdateAction::SearchStarted);
    hub.send_action(Action::Render);
    hub.send_update_action(UpdateAction::SearchFinished);
    hub.send_rpc_action(RpcAction::Start(vec![1]));
    hub.send_rpc_action(RpcAction::Stop(vec![2]));
    hub.send_command(Command::Abort { token: 7 });
    hub.send_command(Command::Abort { token: 8 });

    assert_eq!(hub.next_action(), Some(Action::Up));
    assert_eq!(hub.next_action(), Some(Action::Down));
    assert_eq!(hub.next_action(), Some(Action::Render));
    assert_eq!(hub.next_action(), None);
    assert_eq!(hub.next_update_action(), Some(UpdateAction::SearchStarted));
    assert_eq!(hub.next_update_action(), Some(UpdateAction::SearchFinished));
    assert_eq!(hub.next_update_action(), None);
    assert_eq!(hub.next_rpc_action(), Some(RpcAction::Start(vec![1])));
    assert_eq!(hub.next_rpc_action(), Some(RpcAction::Stop(vec![2])));
    assert_eq!(hub.next_rpc_action(), None);
    assert_eq!(hub.next_command(), Some(Command::Abort { token: 7 }));
    assert_eq!(hub.next_command(), Some(Command::Abort { token: 8 }));
    assert_eq!(hub.next_command(), None);
}

#[test]
fn taking_from_one_queue_leaves_the_others() {
    let mut hub = Hub::new();
    hub.send_action(Action::Tick);
    hub.send_update_action(UpdateAction::StatusTaskClear);
    assert_eq!(hub.next_update_action(), Some(UpdateAction::StatusTaskClear));
    assert_eq!(hub.next_action(), Some(Action::Tick));
}

#[test]
fn nothing_is_dropped_from_a_long_queue() {
    let mut hub = Hub::new();
    for i in 0..200u8 {
        hub.send_action(Action::ScrollUpBy(i));
    }
    for i in 0..200u8 {
        assert_eq!(hub.next_action(), Some(Action::ScrollUpBy(i)));
    }
    assert_eq!(hub.next_action(), None);
}
