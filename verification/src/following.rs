//! Search over the live channels that the user follows.

use vstd::prelude::*;
use crate::action::{TerminalAction, TwitchAction};
use crate::config::CompleteConfig;
use crate::events::Event;
use crate::search::{FetchError, SearchItem, SearchScreen, SearchView, SearchWidget, outcome_view};

verus! {

/// A followed channel that is live.
#[derive(Clone, Debug, PartialEq, Eq)]
pub struct StreamingUser {
    /// The name under which the channel is joined.
    pub user_login: String,
    /// The name as the channel displays it.
    pub user_name: String,
    /// The title of the stream.
    pub title: String,
}

/// Whether the characters of `needle` occur in `hay` in their order, not
/// necessarily side by side.
pub open spec fn is_subsequence(needle: Seq<char>, hay: Seq<char>) -> bool
    decreases hay.len(),
{
    if needle.len() == 0 {
        true
    } else if hay.len() == 0 {
        false
    } else if needle[0] == hay[0] {
        is_subsequence(needle.subrange(1, needle.len() as int), hay.subrange(1, hay.len() as int))
    } else {
        is_subsequence(needle, hay.subrange(1, hay.len() as int))
    }
}

/// Decides `is_subsequence` for a filter text and a name.
pub fn occurs_in_order(needle: &Vec<char>, hay: &str) -> (found: bool)
    ensures
        found == is_subsequence(needle@, hay@),
{
    let hay_len: usize = hay.unicode_len();
    let mut i: usize = 0;
    let mut j: usize = 0;
    assert(needle@.subrange(0, needle@.len() as int) =~= needle@);
    assert(hay@.subrange(0, hay@.len() as int) =~= hay@);
    while i < hay_len && j < needle.len()
        invariant
            hay_len == hay@.len(),
            i <= hay_len,
            j <= needle.len(),
            is_subsequence(needle@, hay@) == is_subsequence(
                needle@.subrange(j as int, needle@.len() as int),
                hay@.subrange(i as int, hay@.len() as int),
            ),
        decreases hay_len - i,
    {
        let ghost rest_needle = needle@.subrange(j as int, needle@.len() as int);
        let ghost rest_hay = hay@.subrange(i as int, hay@.len() as int);
        assert(rest_hay.subrange(1, rest_hay.len() as int) =~= hay@.subrange(
            i + 1,
            hay@.len() as int,
        ));
        assert(rest_needle.subrange(1, rest_needle.len() as int) =~= needle@.subrange(
            j + 1,
            needle@.len() as int,
        ));
        assert(rest_needle[0] == needle@[j as int] && rest_hay[0] == hay@[i as int]);
        if needle[j] == hay.get_char(i) {
            j += 1;
        }
        i += 1;
    }
    j == needle.len()
}

impl SearchItem for StreamingUser {
    /// A channel is listed when the filter's characters occur in its login
    /// name in their order.
    open spec fn matches_spec(&self, filter: Seq<char>) -> bool {
        is_subsequence(filter, self.user_login@)
    }

    fn matches(&self, filter: &Vec<char>) -> (hit: bool) {
        occurs_in_order(filter, self.user_login.as_str())
    }
}

/// The lines shown when the list of followed channels could not be fetched.
pub fn incorrect_scopes_error_message() -> (lines: Vec<&'static str>)
    ensures
        lines@ == error_message_lines(),
{
    let mut lines: Vec<&'static str> = Vec::new();
    lines.push("Failed to get the list of streamers you currently follow.");
    lines.push("Either you have incorrect scopes in your token, or the API is down.");
    lines.push("To get the correct scopes, see the default config at the link below:");
    lines.push("https://github.com/Xithrius/twitch-tui/blob/main/default-config.toml#L8-L13");
    lines.push("");
    lines.push("Hit ESC to dismiss this error.");
    assert(lines@ =~= error_message_lines());
    lines
}

/// The explanation of a failed fetch: what went wrong, where the fix is
/// described, and how to dismiss the notice.
pub open spec fn error_message_lines() -> Seq<&'static str> {
    seq![
        "Failed to get the list of streamers you currently follow.",
        "Either you have incorrect scopes in your token, or the API is down.",
        "To get the correct scopes, see the default config at the link below:",
        "https://github.com/Xithrius/twitch-tui/blob/main/default-config.toml#L8-L13",
        "",
        "Hit ESC to dismiss this error.",
    ]
}

/// What the selection of a channel asks of the caller: `Enter` carries the
/// request to join the channel by its login name, and every other action is
/// passed on as it is.
pub open spec fn join_action(action: Option<TerminalAction<StreamingUser>>) -> Option<
    TerminalAction<TwitchAction>,
> {
    match action {
        Some(TerminalAction::Enter(user)) => Some(
            TerminalAction::Enter(TwitchAction::Join(user.user_login)),
        ),
        Some(TerminalAction::Quit) => Some(TerminalAction::Quit),
        Some(TerminalAction::BackOneLayer) => Some(TerminalAction::BackOneLayer),
        Some(TerminalAction::SwitchState(s)) => Some(TerminalAction::SwitchState(s)),
        Some(TerminalAction::ClearMessages) => Some(TerminalAction::ClearMessages),
        None => None,
    }
}

/// Turns the search widget's action into the following widget's.
pub fn to_join_action(action: Option<TerminalAction<StreamingUser>>) -> (mapped: Option<
    TerminalAction<TwitchAction>,
>)
    ensures
        mapped == join_action(action),
{
    match action {
        Some(TerminalAction::Enter(user)) => Some(
            TerminalAction::Enter(TwitchAction::Join(user.user_login)),
        ),
        Some(TerminalAction::Quit) => Some(TerminalAction::Quit),
        Some(TerminalAction::BackOneLayer) => Some(TerminalAction::BackOneLayer),
        Some(TerminalAction::SwitchState(s)) => Some(TerminalAction::SwitchState(s)),
        Some(TerminalAction::ClearMessages) => Some(TerminalAction::ClearMessages),
        None => None,
    }
}

/// The configuration after `action`: a request to join a channel makes that
/// channel the active one, and nothing else changes anything.
pub open spec fn config_after(config: CompleteConfig, action: Option<TerminalAction<TwitchAction>>) -> CompleteConfig {
    match action {
        Some(TerminalAction::Enter(TwitchAction::Join(channel))) => CompleteConfig {
            twitch: crate::config::TwitchConfig { channel, ..config.twitch },
            ..config
        },
        _ => config,
    }
}

/// The widget that lists the followed live channels.
pub struct FollowingWidget {
    pub search_widget: SearchWidget<StreamingUser>,
}

impl FollowingWidget {
    /// A widget without focus and without candidates.
    pub fn new() -> (widget: Self)
        ensures
            widget.search_widget@ == SearchView::<StreamingUser>::idle(0),
            widget.search_widget@.well_formed(),
            widget.search_widget.error_lines() == error_message_lines(),
    {
        FollowingWidget { search_widget: SearchWidget::new(incorrect_scopes_error_message()) }
    }

    /// Whether the widget owns the input focus.
    pub fn is_focused(&self) -> (focused: bool)
        ensures
            focused == self.search_widget@.focused,
    {
        self.search_widget.is_focused()
    }

    /// Gives up the focus, or takes it; see `SearchWidget::toggle_focus`.
    pub fn toggle_focus(&mut self) -> (ticket: Option<u64>)
        ensures
            final(self).search_widget@ == old(self).search_widget@.toggled(),
            ticket == old(self).search_widget@.toggle_ticket(),
            final(self).search_widget.error_lines() == old(self).search_widget.error_lines(),
    {
        self.search_widget.toggle_focus()
    }

    /// Takes the outcome of the fetch that ran under `ticket`; see
    /// `SearchWidget::fetch_resolved`.
    pub fn fetch_resolved(&mut self, ticket: u64, outcome: Result<Vec<StreamingUser>, FetchError>)
        ensures
            final(self).search_widget@ == old(self).search_widget@.resolved(
                ticket,
                outcome_view(outcome),
            ),
            final(self).search_widget.error_lines() == old(self).search_widget.error_lines(),
    {
        self.search_widget.fetch_resolved(ticket, outcome)
    }

    /// What the widget shows; see `SearchWidget::draw`.
    pub fn draw(&self) -> (screen: SearchScreen)
        ensures
            match screen {
                SearchScreen::Hidden => !self.search_widget@.focused,
                SearchScreen::Failure => self.search_widget@.focused && self.search_widget@.failed,
                SearchScreen::Candidates { visible, selected, loading } => {
                    &&& self.search_widget@.focused && !self.search_widget@.failed
                    &&& crate::search::positions(visible@) == self.search_widget@.visible()
                    &&& selected == self.search_widget@.selected
                    &&& loading == self.search_widget@.pending.is_some()
                },
            },
    {
        self.search_widget.draw()
    }

    /// Handles an event in the search widget. When a channel is selected, the
    /// result asks to join it and `config` names it as the active channel.
    pub fn event(&mut self, event: &Event, config: &mut CompleteConfig) -> (action: Option<
        TerminalAction<TwitchAction>,
    >)
        ensures
            final(self).search_widget@ == old(self).search_widget@.after_event(*event),
            final(self).search_widget.error_lines() == old(self).search_widget.error_lines(),
            action == join_action(old(self).search_widget@.event_action(*event)),
            *final(config) == config_after(*old(config), action),
    {
        let action = to_join_action(self.search_widget.event(event));
        if let Some(TerminalAction::Enter(TwitchAction::Join(channel))) = &action {
            config.twitch.channel = channel.clone();
        }
        action
    }
}

} // verus!
