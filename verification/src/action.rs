//! The vocabulary of intents that a view hands back to its caller.

use vstd::prelude::*;
use crate::state::State;

verus! {

/// A request for the chat connection.
#[derive(Clone, Debug, PartialEq, Eq)]
pub enum TwitchAction {
    /// Send a chat message to the current channel.
    Privmsg(String),
    /// Leave the current channel and join the named one.
    Join(String),
}

/// What a view asks of whoever dispatched an event to it. The payload of
/// `Enter` is the view's own notion of "what was selected".
#[derive(Clone, Debug, PartialEq, Eq)]
pub enum TerminalAction<T> {
    Enter(T),
    Quit,
    BackOneLayer,
    SwitchState(State),
    ClearMessages,
}

} // verus!
