//! Records that live for the whole session.

use vstd::prelude::*;

verus! {

/// One line of the message log.
#[derive(Clone, Debug, PartialEq, Eq)]
pub struct MessageData {
    pub time_sent: String,
    pub author: String,
    pub payload: String,
    /// Set for notices that the client itself produced.
    pub system: bool,
}

/// Session data, loaded once at start-up and written back at shutdown.
#[derive(Clone, Debug, PartialEq, Eq)]
pub struct Storage {
    pub channels: Vec<String>,
    pub mentions: Vec<String>,
}

/// Patterns of messages that the chat view suppresses.
#[derive(Clone, Debug, PartialEq, Eq)]
pub struct Filters {
    pub captures: Vec<String>,
    pub enabled: bool,
    pub reversed: bool,
}

} // verus!
