use twitch_tui::action::{TerminalAction, TwitchAction};
use twitch_tui::config::{CompleteConfig, FrontendConfig, TerminalConfig, Theme, TwitchConfig};
use twitch_tui::events::{Event, Key};
use twitch_tui::following::{
    incorrect_scopes_error_message, occurs_in_order, to_join_action, FollowingWidget,
    StreamingUser,
};
use twitch_tui::search::{FetchError, SearchItem, SearchScreen, SearchWidget};
use twitch_tui::state::State;

fn config() -> CompleteConfig {
    CompleteConfig {
        twitch: TwitchConfig { username: String::from("me"), channel: String::from("home") },
        terminal: TerminalConfig { maximum_messages: 150, start_state: State::Dashboard },
        frontend: FrontendConfig { state_tabs: false, theme: Theme::Light },
    }
}

fn user(login: &str) -> StreamingUser {
    StreamingUser {
        user_login: String::from(login),
        user_name: login.to_uppercase(),
        title: String::from("live"),
    }
}

fn key(widget: &mut FollowingWidget, config: &mut CompleteConfig, key: Key) -> Option<TerminalAction<TwitchAction>> {
    widget.event(&Event::Input(key), config)
}

fn focused_with(logins: &[&str]) -> FollowingWidget {
    let mut widget = FollowingWidget::new();
    let ticket = widget.toggle_focus().unwrap();
    widget.fetch_resolved(ticket, Ok(logins.iter().map(|l| user(l)).collect()));
    widget
}

fn candidates(visible: Vec<usize>, selected: usize, loading: bool) -> SearchScreen {
    SearchScreen::Candidates { visible, selected, loading }
}

#[test]
fn new_widget_is_hidden() {
    let widget = FollowingWidget::new();
    assert!(!widget.is_focused());
    assert_eq!(widget.draw(), SearchScreen::Hidden);
    assert!(widget.search_widget.items().is_empty());
    assert!(widget.search_widget.filter().is_empty());
}

#[test]
fn focus_starts_a_fetch() {
    let mut widget = FollowingWidget::new();
    assert_eq!(widget.toggle_focus(), Some(0));
    assert!(widget.is_focused());
    assert_eq!(widget.draw(), candidates(vec![], 0, true));
    assert_eq!(widget.toggle_focus(), None);
    assert!(!widget.is_focused());
    assert_eq!(widget.toggle_focus(), Some(1));
}

#[test]
fn empty_fetch_shows_empty_list() {
    let mut widget = FollowingWidget::new();
    let ticket = widget.toggle_focus().unwrap();
    widget.fetch_resolved(ticket, Ok(Vec::new()));
    assert_eq!(widget.draw(), candidates(vec![], 0, false));
}

#[test]
fn failed_fetch_shows_diagnostic() {
    let mut widget = FollowingWidget::new();
    let ticket = widget.toggle_focus().unwrap();
    widget.fetch_resolved(ticket, Err(FetchError::Permission));
    assert_eq!(widget.draw(), SearchScreen::Failure);
    let lines = widget.search_widget.error_message();
    assert_eq!(
        *lines,
        vec![
            "Failed to get the list of streamers you currently follow.",
            "Either you have incorrect scopes in your token, or the API is down.",
            "To get the correct scopes, see the default config at the link below:",
            "https://github.com/Xithrius/twitch-tui/blob/main/default-config.toml#L8-L13",
            "",
            "Hit ESC to dismiss this error.",
        ]
    );
    assert_eq!(lines[lines.len() - 1], "Hit ESC to dismiss this error.");
    assert_eq!(*lines, incorrect_scopes_error_message());
}

#[test]
fn unavailable_backend_shows_diagnostic_until_dismissed() {
    let mut config = config();
    let mut widget = FollowingWidget::new();
    let ticket = widget.toggle_focus().unwrap();
    widget.fetch_resolved(ticket, Err(FetchError::Unavailable));
    assert_eq!(widget.draw(), SearchScreen::Failure);
    assert_eq!(key(&mut widget, &mut config, Key::Char('a')), None);
    assert_eq!(key(&mut widget, &mut config, Key::Enter), None);
    assert_eq!(widget.draw(), SearchScreen::Failure);
    assert_eq!(key(&mut widget, &mut config, Key::Esc), Some(TerminalAction::BackOneLayer));
    assert_eq!(widget.draw(), SearchScreen::Hidden);
    let ticket = widget.toggle_focus().unwrap();
    widget.fetch_resolved(ticket, Ok(vec![user("foo")]));
    assert_eq!(widget.draw(), candidates(vec![0], 0, false));
}

#[test]
fn selecting_foo_joins_foo() {
    let mut config = config();
    let mut widget = focused_with(&["foo"]);
    let action = key(&mut widget, &mut config, Key::Enter);
    assert_eq!(
        action,
        Some(TerminalAction::Enter(TwitchAction::Join(String::from("foo"))))
    );
    assert_eq!(config.twitch.channel, "foo");
    assert_eq!(config.twitch.username, "me");
    assert!(!widget.is_focused());
    assert_eq!(widget.draw(), SearchScreen::Hidden);
}

#[test]
fn selecting_under_filter_and_cursor() {
    let mut config = config();
    let mut widget = focused_with(&["alpha", "foo", "beta", "fob", "gamma"]);
    assert_eq!(key(&mut widget, &mut config, Key::Char('f')), None);
    assert_eq!(key(&mut widget, &mut config, Key::Char('o')), None);
    assert_eq!(widget.draw(), candidates(vec![1, 3], 0, false));
    assert_eq!(*widget.search_widget.filter(), vec!['f', 'o']);
    assert_eq!(key(&mut widget, &mut config, Key::Down), None);
    assert_eq!(widget.draw(), candidates(vec![1, 3], 1, false));
    let action = key(&mut widget, &mut config, Key::Enter);
    assert_eq!(
        action,
        Some(TerminalAction::Enter(TwitchAction::Join(String::from("fob"))))
    );
    assert_eq!(config.twitch.channel, "fob");
}

#[test]
fn commit_without_candidates_does_nothing() {
    let mut config = config();
    let mut widget = focused_with(&["alpha", "beta"]);
    key(&mut widget, &mut config, Key::Char('z'));
    assert_eq!(widget.draw(), candidates(vec![], 0, false));
    assert_eq!(key(&mut widget, &mut config, Key::Enter), None);
    assert!(widget.is_focused());
    assert_eq!(config, self::config());
    assert_eq!(widget.search_widget.items().len(), 2);
}

#[test]
fn commit_while_loading_does_nothing() {
    let mut config = config();
    let mut widget = FollowingWidget::new();
    widget.toggle_focus();
    assert_eq!(key(&mut widget, &mut config, Key::Enter), None);
    assert_eq!(widget.draw(), candidates(vec![], 0, true));
    assert_eq!(config.twitch.channel, "home");
}

#[test]
fn cursor_wraps_both_ways() {
    let mut config = config();
    let mut widget = focused_with(&["a", "b", "c"]);
    key(&mut widget, &mut config, Key::Up);
    assert_eq!(widget.draw(), candidates(vec![0, 1, 2], 2, false));
    key(&mut widget, &mut config, Key::ScrollUp);
    assert_eq!(widget.draw(), candidates(vec![0, 1, 2], 1, false));
    key(&mut widget, &mut config, Key::Down);
    key(&mut widget, &mut config, Key::ScrollDown);
    assert_eq!(widget.draw(), candidates(vec![0, 1, 2], 0, false));
}

#[test]
fn cursor_stays_on_empty_list() {
    let mut config = config();
    let mut widget = focused_with(&[]);
    key(&mut widget, &mut config, Key::Up);
    assert_eq!(widget.draw(), candidates(vec![], 0, false));
    key(&mut widget, &mut config, Key::Down);
    assert_eq!(widget.draw(), candidates(vec![], 0, false));
}

#[test]
fn editing_the_filter_resets_cursor() {
    let mut config = config();
    let mut widget = focused_with(&["ab", "abc", "b"]);
    key(&mut widget, &mut config, Key::Down);
    key(&mut widget, &mut config, Key::Down);
    assert_eq!(widget.draw(), candidates(vec![0, 1, 2], 2, false));
    key(&mut widget, &mut config, Key::Char('a'));
    assert_eq!(widget.draw(), candidates(vec![0, 1], 0, false));
    key(&mut widget, &mut config, Key::Char('c'));
    assert_eq!(widget.draw(), candidates(vec![1], 0, false));
    key(&mut widget, &mut config, Key::Backspace);
    key(&mut widget, &mut config, Key::Backspace);
    key(&mut widget, &mut config, Key::Backspace);
    assert!(widget.search_widget.filter().is_empty());
    assert_eq!(widget.draw(), candidates(vec![0, 1, 2], 0, false));
}

#[test]
fn escape_gives_up_focus_and_discards_candidates() {
    let mut config = config();
    let mut widget = focused_with(&["foo", "bar"]);
    key(&mut widget, &mut config, Key::Char('f'));
    assert_eq!(key(&mut widget, &mut config, Key::Esc), Some(TerminalAction::BackOneLayer));
    assert!(!widget.is_focused());
    assert!(widget.search_widget.items().is_empty());
    assert!(widget.search_widget.filter().is_empty());
    assert_eq!(config, self::config());
}

#[test]
fn unfocused_widget_ignores_events() {
    let mut config = config();
    let mut widget = FollowingWidget::new();
    for k in [Key::Enter, Key::Esc, Key::Char('x'), Key::Down, Key::Backspace] {
        assert_eq!(key(&mut widget, &mut config, k), None);
    }
    assert_eq!(widget.event(&Event::Tick, &mut config), None);
    assert_eq!(widget.draw(), SearchScreen::Hidden);
    assert!(widget.search_widget.filter().is_empty());
}

#[test]
fn tick_and_unbound_keys_change_nothing() {
    let mut config = config();
    let mut widget = focused_with(&["foo", "bar"]);
    key(&mut widget, &mut config, Key::Down);
    assert_eq!(widget.event(&Event::Tick, &mut config), None);
    assert_eq!(key(&mut widget, &mut config, Key::Tab), None);
    assert_eq!(key(&mut widget, &mut config, Key::Ctrl('x')), None);
    assert_eq!(widget.draw(), candidates(vec![0, 1], 1, false));
}

#[test]
fn stale_result_after_defocus_is_ignored() {
    let mut widget = FollowingWidget::new();
    let ticket = widget.toggle_focus().unwrap();
    widget.toggle_focus();
    widget.fetch_resolved(ticket, Ok(vec![user("foo")]));
    assert!(!widget.is_focused());
    assert_eq!(widget.draw(), SearchScreen::Hidden);
    assert!(widget.search_widget.items().is_empty());
    widget.fetch_resolved(ticket, Err(FetchError::Permission));
    assert_eq!(widget.draw(), SearchScreen::Hidden);
    let next = widget.toggle_focus().unwrap();
    assert_eq!(widget.draw(), candidates(vec![], 0, true));
    widget.fetch_resolved(next, Ok(vec![user("bar")]));
    assert_eq!(widget.draw(), candidates(vec![0], 0, false));
}

#[test]
fn stale_result_after_refocus_is_ignored() {
    let mut widget = FollowingWidget::new();
    let first = widget.toggle_focus().unwrap();
    widget.toggle_focus();
    let second = widget.toggle_focus().unwrap();
    assert_ne!(first, second);
    widget.fetch_resolved(first, Err(FetchError::Unavailable));
    assert_eq!(widget.draw(), candidates(vec![], 0, true));
    widget.fetch_resolved(first, Ok(vec![user("old")]));
    assert_eq!(widget.draw(), candidates(vec![], 0, true));
    widget.fetch_resolved(second, Ok(vec![user("new"), user("newer")]));
    assert_eq!(widget.draw(), candidates(vec![0, 1], 0, false));
    assert_eq!(widget.search_widget.items()[0].user_login, "new");
    widget.fetch_resolved(second, Err(FetchError::Permission));
    assert_eq!(widget.draw(), candidates(vec![0, 1], 0, false));
}

#[test]
fn filter_matches_characters_in_order() {
    let foo: Vec<char> = "foo".chars().collect();
    assert!(occurs_in_order(&foo, "foo"));
    assert!(occurs_in_order(&foo, "xfxoxox"));
    assert!(!occurs_in_order(&foo, "fo"));
    assert!(!occurs_in_order(&foo, "oof"));
    assert!(!occurs_in_order(&foo, "FOO"));
    assert!(occurs_in_order(&Vec::new(), ""));
    assert!(occurs_in_order(&Vec::new(), "anything"));
    assert!(!occurs_in_order(&foo, ""));
    let accented: Vec<char> = "éa".chars().collect();
    assert!(occurs_in_order(&accented, "péka"));
    assert!(user("streamer").matches(&"sme".chars().collect()));
    assert!(!user("streamer").matches(&"ems".chars().collect()));
}

#[test]
fn other_actions_pass_through_unchanged() {
    assert_eq!(to_join_action(Some(TerminalAction::Quit)), Some(TerminalAction::Quit));
    assert_eq!(
        to_join_action(Some(TerminalAction::BackOneLayer)),
        Some(TerminalAction::BackOneLayer)
    );
    assert_eq!(
        to_join_action(Some(TerminalAction::SwitchState(State::Help))),
        Some(TerminalAction::SwitchState(State::Help))
    );
    assert_eq!(
        to_join_action(Some(TerminalAction::ClearMessages)),
        Some(TerminalAction::ClearMessages)
    );
    assert_eq!(to_join_action(None), None);
    assert_eq!(
        to_join_action(Some(TerminalAction::Enter(user("foo")))),
        Some(TerminalAction::Enter(TwitchAction::Join(String::from("foo"))))
    );
}

#[test]
fn generic_widget_lists_by_index() {
    let mut widget: SearchWidget<StreamingUser> = SearchWidget::new(vec!["no list", "press escape"]);
    assert_eq!(*widget.error_message(), vec!["no list", "press escape"]);
    let ticket = widget.toggle_focus().unwrap();
    widget.fetch_resolved(ticket, Ok(vec![user("one"), user("two"), user("three")]));
    widget.event(&Event::Input(Key::Char('t')));
    assert_eq!(widget.visible_indices(), vec![1, 2]);
    let action = widget.event(&Event::Input(Key::Enter));
    assert_eq!(action, Some(TerminalAction::Enter(user("two"))));
    assert!(!widget.is_focused());
}

#[test]
fn selection_in_chat_view_changes_shared_config() {
    let storage = twitch_tui::data::Storage { channels: Vec::new(), mentions: Vec::new() };
    let filters = twitch_tui::data::Filters { captures: Vec::new(), enabled: false, reversed: false };
    let mut app = twitch_tui::app::App::new(config(), storage, filters);
    let ticket = app.components.chat.following.toggle_focus().unwrap();
    app.components.chat.following.fetch_resolved(ticket, Ok(vec![user("bar"), user("foo")]));
    app.components.chat.following.event(&Event::Input(Key::Down), &mut app.config);
    let action = app.components.chat.following.event(&Event::Input(Key::Enter), &mut app.config);
    assert_eq!(
        action,
        Some(TerminalAction::Enter(TwitchAction::Join(String::from("foo"))))
    );
    assert_eq!(app.config.twitch.channel, "foo");
    assert_eq!(
        app.handle_action(action.unwrap()),
        twitch_tui::app::ActionOutcome::Publish(TwitchAction::Join(String::from("foo")))
    );
}
