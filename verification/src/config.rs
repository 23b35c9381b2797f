//! The configuration that the controller and its views share.

use vstd::prelude::*;
use crate::state::State;

verus! {

/// Colour scheme chosen by the user.
#[derive(Clone, Copy, Debug, PartialEq, Eq, Structural)]
pub enum Theme {
    Dark,
    Light,
}

/// Connection settings.
#[derive(Clone, Debug, PartialEq, Eq)]
pub struct TwitchConfig {
    /// The account that is logged in.
    pub username: String,
    /// The channel that is currently joined.
    pub channel: String,
}

/// Limits and start-up behaviour of the terminal.
#[derive(Clone, Copy, Debug, PartialEq, Eq, Structural)]
pub struct TerminalConfig {
    /// Sizing hint for the message log; never an eviction bound.
    pub maximum_messages: usize,
    /// The view shown first.
    pub start_state: State,
}

/// Presentation settings.
#[derive(Clone, Copy, Debug, PartialEq, Eq, Structural)]
pub struct FrontendConfig {
    /// Whether a one-row strip of state tabs is drawn at the bottom.
    pub state_tabs: bool,
    pub theme: Theme,
}

/// Everything the user configured.
#[derive(Clone, Debug, PartialEq, Eq)]
pub struct CompleteConfig {
    pub twitch: TwitchConfig,
    pub terminal: TerminalConfig,
    pub frontend: FrontendConfig,
}

} // verus!
