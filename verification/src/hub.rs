//! The dispatch hub: four unbounded first-in-first-out mailboxes, one per
//! message type. Components send into it while they handle a message; the
//! main loop takes messages out in the order they were sent.

use std::collections::VecDeque;
use vstd::prelude::*;
use crate::action::Action;
use crate::messages::{
    Command, CommandView, RpcAction, RpcActionView, UpdateAction, UpdateActionView,
};

verus! {

pub struct Hub {
    pub actions: VecDeque<Action>,
    pub updates: VecDeque<UpdateAction>,
    pub requests: VecDeque<RpcAction>,
    pub commands: VecDeque<Command>,
}

/// What waits in the hub, oldest first in each queue.
pub struct HubView {
    pub actions: Seq<Action>,
    pub updates: Seq<UpdateActionView>,
    pub requests: Seq<RpcActionView>,
    pub commands: Seq<CommandView>,
}

impl HubView {
    /// The queues after `more` was sent behind what waits already.
    pub open spec fn then(self, more: HubView) -> HubView {
        HubView {
            actions: self.actions + more.actions,
            updates: self.updates + more.updates,
            requests: self.requests + more.requests,
            commands: self.commands + more.commands,
        }
    }

    /// Nothing in any queue.
    pub open spec fn empty() -> HubView {
        HubView {
            actions: Seq::empty(),
            updates: Seq::empty(),
            requests: Seq::empty(),
            commands: Seq::empty(),
        }
    }

    /// Only these actions.
    pub open spec fn of_actions(actions: Seq<Action>) -> HubView {
        HubView { actions, ..HubView::empty() }
    }

    /// Only these updates.
    pub open spec fn of_updates(updates: Seq<UpdateActionView>) -> HubView {
        HubView { updates, ..HubView::empty() }
    }

    /// Only these requests.
    pub open spec fn of_requests(requests: Seq<RpcActionView>) -> HubView {
        HubView { requests, ..HubView::empty() }
    }

    pub open spec fn with_action(self, action: Action) -> HubView {
        HubView { actions: self.actions.push(action), ..self }
    }

    pub open spec fn with_update(self, update: UpdateActionView) -> HubView {
        HubView { updates: self.updates.push(update), ..self }
    }

    pub open spec fn with_request(self, request: RpcActionView) -> HubView {
        HubView { requests: self.requests.push(request), ..self }
    }

    pub open spec fn with_command(self, command: CommandView) -> HubView {
        HubView { commands: self.commands.push(command), ..self }
    }
}

impl View for Hub {
    type V = HubView;

    open spec fn view(&self) -> HubView {
        HubView {
            actions: self.actions@,
            updates: self.updates@.map_values(|u: UpdateAction| u@),
            requests: self.requests@.map_values(|r: RpcAction| r@),
            commands: self.commands@.map_values(|c: Command| c@),
        }
    }
}

impl Hub {
    /// An empty hub.
    pub fn new() -> (hub: Hub)
        ensures
            hub@ == HubView::empty(),
    {
        let hub = Hub {
            actions: VecDeque::new(),
            updates: VecDeque::new(),
            requests: VecDeque::new(),
            commands: VecDeque::new(),
        };
        assert(hub@.updates =~= Seq::empty());
        assert(hub@.requests =~= Seq::empty());
        assert(hub@.commands =~= Seq::empty());
        hub
    }

    /// Queues an action behind all actions sent before.
    pub fn send_action(&mut self, action: Action)
        ensures
            final(self)@ == old(self)@.with_action(action),
    {
        self.actions.push_back(action);
    }

    /// Queues an update behind all updates sent before.
    pub fn send_update_action(&mut self, update: UpdateAction)
        ensures
            final(self)@ == old(self)@.with_update(update@),
    {
        let ghost before = self.updates@;
        self.updates.push_back(update);
        assert(self.updates@.map_values(|u: UpdateAction| u@) =~= before.map_values(
            |u: UpdateAction| u@,
        ).push(update@));
    }

    /// Queues a request to the daemon behind all requests sent before.
    pub fn send_rpc_action(&mut self, request: RpcAction)
        ensures
            final(self)@ == old(self)@.with_request(request@),
    {
        let ghost before = self.requests@;
        self.requests.push_back(request);
        assert(self.requests@.map_values(|r: RpcAction| r@) =~= before.map_values(
            |r: RpcAction| r@,
        ).push(request@));
    }

    /// Queues work for the runtime behind all work sent before.
    pub fn send_command(&mut self, command: Command)
        ensures
            final(self)@ == old(self)@.with_command(command@),
    {
        let ghost before = self.commands@;
        self.commands.push_back(command);
        assert(self.commands@.map_values(|c: Command| c@) =~= before.map_values(
            |c: Command| c@,
        ).push(command@));
    }

    /// Takes out the action that has waited longest, if any waits.
    pub fn next_action(&mut self) -> (action: Option<Action>)
        ensures
            old(self)@.actions.len() == 0 ==> action is None && final(self)@ == old(self)@,
            old(self)@.actions.len() > 0 ==> action == Some(old(self)@.actions[0]) && final(self)@
                == (HubView { actions: old(self)@.actions.drop_first(), ..old(self)@ }),
    {
        let action = self.actions.pop_front();
        assert(old(self)@.actions.len() > 0 ==> self.actions@ =~= old(self)@.actions.drop_first());
        action
    }

    /// Takes out the update that has waited longest, if any waits.
    pub fn next_update_action(&mut self) -> (update: Option<UpdateAction>)
        ensures
            old(self)@.updates.len() == 0 ==> update is None && final(self)@ == old(self)@,
            old(self)@.updates.len() > 0 ==> update is Some && update->0@ == old(self)@.updates[0]
                && final(self)@ == (HubView {
                updates: old(self)@.updates.drop_first(),
                ..old(self)@
            }),
    {
        let ghost before = self.updates@;
        let update = self.updates.pop_front();
        assert(before.len() > 0 ==> self.updates@.map_values(|u: UpdateAction| u@)
            =~= before.map_values(|u: UpdateAction| u@).drop_first());
        update
    }

    /// Takes out the request that has waited longest, if any waits.
    pub fn next_rpc_action(&mut self) -> (request: Option<RpcAction>)
        ensures
            old(self)@.requests.len() == 0 ==> request is None && final(self)@ == old(self)@,
            old(self)@.requests.len() > 0 ==> request is Some && request->0@
                == old(self)@.requests[0] && final(self)@ == (HubView {
                requests: old(self)@.requests.drop_first(),
                ..old(self)@
            }),
    {
        let ghost before = self.requests@;
        let request = self.requests.pop_front();
        assert(before.len() > 0 ==> self.requests@.map_values(|r: RpcAction| r@)
            =~= before.map_values(|r: RpcAction| r@).drop_first());
        request
    }

    /// Takes out the work for the runtime that has waited longest, if any
    /// waits.
    pub fn next_command(&mut self) -> (command: Option<Command>)
        ensures
            old(self)@.commands.len() == 0 ==> command is None && final(self)@ == old(self)@,
            old(self)@.commands.len() > 0 ==> command is Some && command->0@
                == old(self)@.commands[0] && final(self)@ == (HubView {
                commands: old(self)@.commands.drop_first(),
                ..old(self)@
            }),
    {
        let ghost before = self.commands@;
        let command = self.commands.pop_front();
        assert(before.len() > 0 ==> self.commands@.map_values(|c: Command| c@)
            =~= before.map_values(|c: Command| c@).drop_first());
        command
    }
}

} // verus!
