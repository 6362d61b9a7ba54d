//! What every handler hands back to the specification: the component after
//! the message, the hub after what the handler sent, and its verdict.

use vstd::prelude::*;
use crate::action::ComponentAction;
use crate::hub::HubView;

verus! {

/// The outcome of handling one message.
pub struct Step<S> {
    /// The component afterwards.
    pub state: S,
    /// The hub afterwards: what waited before, then what the handler sent.
    pub hub: HubView,
    /// Whether the component asks its parent to close it.
    pub result: ComponentAction,
}

impl<S> Step<S> {
    /// The handler changed the component and sent nothing.
    pub open spec fn stay(state: S, hub: HubView) -> Step<S> {
        Step { state, hub, result: ComponentAction::Nothing }
    }

    /// The component asks to be closed.
    pub open spec fn quit(state: S, hub: HubView) -> Step<S> {
        Step { state, hub, result: ComponentAction::Quit }
    }
}

} // verus!
