//! Messages between the surfaces and the action subsystem.

use vstd::prelude::*;
use crate::action::Action;
use crate::window::Target;

verus! {

/// What a message carries.
#[derive(Debug, Clone, Copy)]
pub enum Event {
    /// Ask a surface to show its selector, with this command pending.
    InvokeRegionSelector(Action),
    /// Ask the action subsystem to carry this command out.
    DoAction(Action),
}

/// A message: who sent it, whom it is for, and what it carries.
#[derive(Debug, Clone, Copy)]
pub struct UserEvent {
    pub sender: Target,
    pub receiver: Target,
    pub event: Event,
}

impl UserEvent {
    /// A message from `sender` to `receiver`.
    pub fn new(sender: Target, receiver: Target, event: Event) -> (e: UserEvent)
        ensures
            e == (UserEvent { sender, receiver, event }),
    {
        Self { sender, receiver, event }
    }

    /// A message that asks for `action` to be carried out.
    pub fn build_action_event(sender: Target, receiver: Target, action: Action) -> (e: UserEvent)
        ensures
            e == (UserEvent { sender, receiver, event: Event::DoAction(action) }),
    {
        Self { sender, receiver, event: Event::DoAction(action) }
    }
}

} // verus!
