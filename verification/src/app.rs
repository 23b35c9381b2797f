//! The application controller: which view is current, what a frame shows,
//! and where an event goes.

use std::collections::VecDeque;
use vstd::prelude::*;
use rustyline::line_buffer::LineBuffer;
use crate::action::{TerminalAction, TwitchAction};
use crate::components::{ChatWidget, Components, DebugWidget, Scrolling};
use crate::config::{CompleteConfig, Theme};
use crate::data::{Filters, MessageData, Storage};
use crate::events::{Event, event_is_global, is_global_event};
use crate::layout::{DrawPlan, Rect, content_area, draw_plan, layout_frame, view_of_state};
use crate::state::State;

verus! {

/// The room that the input line is created with, in bytes.
pub const LINE_BUFFER_CAPACITY: usize = 4096;

/// `rustyline::line_buffer::LineBuffer`, the editable input line. Nothing is
/// known of a value of it but what `line_buffer_text` names.
#[verifier::external_type_specification]
#[verifier::external_body]
pub struct ExLineBuffer(rustyline::line_buffer::LineBuffer);

/// The text that a line buffer holds.
pub uninterp spec fn line_buffer_text(buffer: LineBuffer) -> Seq<char>;

/// Calls `rustyline::line_buffer::LineBuffer::with_capacity`.
///
/// Assumed, not proved: the buffer it returns holds no text.
#[verifier::external_body]
fn empty_line_buffer(capacity: usize) -> (buffer: LineBuffer)
    ensures
        line_buffer_text(buffer) == Seq::<char>::empty(),
{
    LineBuffer::with_capacity(capacity)
}

/// The controller as a mathematical value.
pub struct AppView {
    pub components: Components,
    pub config: CompleteConfig,
    pub messages: Seq<MessageData>,
    pub storage: Storage,
    pub filters: Filters,
    /// Which view the terminal shows.
    pub state: State,
    /// The state before the latest transition. Only one step of history is
    /// kept: each transition overwrites it.
    pub previous_state: Option<State>,
    pub input_buffer: LineBuffer,
    pub buffer_suggestion: Option<String>,
    pub theme: Theme,
}

impl AppView {
    /// The controller after one transition to `next`.
    pub open spec fn moved_to(self, next: State) -> Self {
        AppView { state: next, previous_state: Some(self.state), ..self }
    }

    /// The controller after the transitions to `calls`, in their order.
    pub open spec fn after(self, calls: Seq<State>) -> Self
        decreases calls.len(),
    {
        if calls.len() == 0 {
            self
        } else {
            self.after(calls.drop_last()).moved_to(calls.last())
        }
    }

    /// The controller with an empty message log and the chat view scrolled
    /// back to the top.
    pub open spec fn cleared(self) -> Self {
        AppView {
            messages: Seq::empty(),
            components: Components {
                chat: ChatWidget {
                    scroll_offset: Scrolling { offset: 0 },
                    ..self.components.chat
                },
                ..self.components
            },
            ..self
        }
    }

    /// The controller with the debug panel shown if it was hidden, and
    /// hidden if it was shown.
    pub open spec fn debug_toggled(self) -> Self {
        AppView {
            components: Components {
                debug: DebugWidget { focused: !self.components.debug.focused },
                ..self.components
            },
            ..self
        }
    }

    /// The controller after an event: a reserved binding is handled, and
    /// nothing else changes the controller itself.
    pub open spec fn after_event(self, event: Event) -> Self {
        if is_global_event(event) {
            self.debug_toggled()
        } else {
            self
        }
    }

    /// Where an event goes: nowhere if the controller handles it, else to
    /// the view of the current state.
    pub open spec fn dispatch_of(self, event: Event) -> EventDispatch {
        if is_global_event(event) {
            EventDispatch::Consumed
        } else {
            EventDispatch::Forward(self.state)
        }
    }

    /// The state that one step back leads to: the remembered state, or the
    /// configured start state where none is remembered.
    pub open spec fn one_layer_back(self) -> State {
        match self.previous_state {
            Some(previous) => previous,
            None => self.config.terminal.start_state,
        }
    }

    /// The controller after it took the action of a view.
    pub open spec fn after_action(self, action: TerminalAction<TwitchAction>) -> Self {
        match action {
            TerminalAction::BackOneLayer => self.moved_to(self.one_layer_back()),
            TerminalAction::SwitchState(state) => self.moved_to(state),
            TerminalAction::ClearMessages => self.cleared(),
            TerminalAction::Quit => self,
            TerminalAction::Enter(_) => self,
        }
    }

    /// What a frame of the size `frame` shows.
    pub open spec fn plan(self, frame: Rect) -> DrawPlan {
        draw_plan(
            self.state,
            self.config.frontend.state_tabs,
            self.components.debug.focused,
            frame,
        )
    }
}

/// What is left to the caller after an action: to quit, to publish the
/// request that a selection carries, or nothing.
pub open spec fn outcome_of(action: TerminalAction<TwitchAction>) -> ActionOutcome {
    match action {
        TerminalAction::Quit => ActionOutcome::Quit,
        TerminalAction::Enter(request) => ActionOutcome::Publish(request),
        _ => ActionOutcome::Continue,
    }
}

/// Where an event goes.
#[derive(Clone, Copy, Debug, PartialEq, Eq, Structural)]
pub enum EventDispatch {
    /// The controller handled the event itself; no view sees it.
    Consumed,
    /// The event belongs to the view of this state.
    Forward(State),
}

/// What the caller does after the controller took an action.
#[derive(Clone, Debug, PartialEq, Eq)]
pub enum ActionOutcome {
    /// Go on with the next event.
    Continue,
    /// Shut the client down.
    Quit,
    /// Publish the request to whoever listens for the chat connection, and go
    /// on without waiting for an answer.
    Publish(TwitchAction),
}

/// The controller, with the resources that its views share.
pub struct App {
    /// The views that keep state.
    pub components: Components,
    /// The configuration, for the controller and the views to share.
    pub config: CompleteConfig,
    /// The recorded messages, oldest first.
    pub messages: VecDeque<MessageData>,
    /// Session data, written back at shutdown.
    pub storage: Storage,
    /// Messages to be filtered out.
    pub filters: Filters,
    /// Which view the terminal shows.
    state: State,
    /// The state before the latest transition, if there was one.
    previous_state: Option<State>,
    /// What the user has typed so far.
    pub input_buffer: LineBuffer,
    /// The completion offered for the input, if any.
    pub buffer_suggestion: Option<String>,
    /// The theme selected by the user.
    pub theme: Theme,
}

impl View for App {
    type V = AppView;

    closed spec fn view(&self) -> AppView {
        AppView {
            components: self.components,
            config: self.config,
            messages: self.messages@,
            storage: self.storage,
            filters: self.filters,
            state: self.state,
            previous_state: self.previous_state,
            input_buffer: self.input_buffer,
            buffer_suggestion: self.buffer_suggestion,
            theme: self.theme,
        }
    }
}

impl App {
    /// A controller in the configured start state, with an empty message
    /// log, an empty input line and fresh views.
    pub fn new(config: CompleteConfig, storage: Storage, filters: Filters) -> (app: Self)
        ensures
            app@.state == config.terminal.start_state,
            app@.previous_state.is_none(),
            app@.config == config,
            app@.storage == storage,
            app@.filters == filters,
            app@.messages == Seq::<MessageData>::empty(),
            app@.components.is_initial(),
            line_buffer_text(app@.input_buffer) == Seq::<char>::empty(),
            app@.buffer_suggestion.is_none(),
            app@.theme == config.frontend.theme,
    {
        let state = config.terminal.start_state;
        let theme = config.frontend.theme;
        let messages: VecDeque<MessageData> = VecDeque::with_capacity(
            config.terminal.maximum_messages,
        );
        App {
            components: Components::new(),
            config,
            messages,
            storage,
            filters,
            state,
            previous_state: None,
            input_buffer: empty_line_buffer(LINE_BUFFER_CAPACITY),
            buffer_suggestion: None,
            theme,
        }
    }

    /// Decides what a frame of the size `frame` shows. With state tabs
    /// switched on, the bottom row goes to the tab strip and the content area
    /// loses that row. A content area below the size floor shows the error
    /// view; any other shows the view of the current state. The debug panel,
    /// when focused, is drawn last and over everything.
    pub fn draw(&self, frame: Rect) -> (plan: DrawPlan)
        requires
            frame.in_bounds(),
        ensures
            plan == self@.plan(frame),
    {
        layout_frame(
            self.state,
            self.config.frontend.state_tabs,
            self.components.debug.is_focused(),
            frame,
        )
    }

    /// Decides where an event goes. A key press on a reserved binding is
    /// handled here, and no view sees it: it shows or hides the debug panel.
    /// Every other event belongs to the view of the current state, and the
    /// controller itself does not change.
    pub fn event(&mut self, event: &Event) -> (dispatch: EventDispatch)
        ensures
            dispatch == old(self)@.dispatch_of(*event),
            final(self)@ == old(self)@.after_event(*event),
    {
        if event_is_global(event) {
            self.components.debug.toggle_focus();
            EventDispatch::Consumed
        } else {
            EventDispatch::Forward(self.state)
        }
    }

    /// Takes the action that a view handed back. A switch of state and a
    /// step back are transitions, a request to clear empties the message log,
    /// and what only the caller can do is named in the result.
    pub fn handle_action(&mut self, action: TerminalAction<TwitchAction>) -> (outcome: ActionOutcome)
        ensures
            final(self)@ == old(self)@.after_action(action),
            outcome == outcome_of(action),
    {
        match action {
            TerminalAction::Quit => ActionOutcome::Quit,
            TerminalAction::BackOneLayer => {
                let target = match self.previous_state {
                    Some(previous) => previous,
                    None => self.config.terminal.start_state,
                };
                self.set_state(target);
                ActionOutcome::Continue
            },
            TerminalAction::SwitchState(state) => {
                self.set_state(state);
                ActionOutcome::Continue
            },
            TerminalAction::ClearMessages => {
                self.clear_messages();
                ActionOutcome::Continue
            },
            TerminalAction::Enter(request) => ActionOutcome::Publish(request),
        }
    }

    /// Hands out the session data that the caller must write back to its
    /// file at shutdown.
    pub fn cleanup(&self) -> (snapshot: &Storage)
        ensures
            *snapshot == self@.storage,
    {
        &self.storage
    }

    /// Empties the message log and scrolls the chat view back to the top.
    pub fn clear_messages(&mut self)
        ensures
            final(self)@ == old(self)@.cleared(),
    {
        self.messages.clear();
        self.components.chat.scroll_offset.jump_to(0);
    }

    /// The state before the latest transition, or none if there was no
    /// transition yet.
    pub fn get_previous_state(&self) -> (previous: Option<State>)
        ensures
            previous == self@.previous_state,
    {
        self.previous_state
    }

    /// The current state.
    pub fn get_state(&self) -> (state: State)
        ensures
            state == self@.state,
    {
        self.state
    }

    /// Makes `other` the current state and remembers the state it replaces,
    /// in place of whatever was remembered before.
    pub fn set_state(&mut self, other: State)
        ensures
            final(self)@ == old(self)@.moved_to(other),
    {
        self.previous_state = Some(self.state);
        self.state = other;
    }
}

/// After any run of transitions the remembered state is the one that the
/// transition before the last led to, or the state that the run began in if
/// there was only one transition; the current state is the one that the last
/// led to. With no transition nothing changes. Transitions touch nothing but
/// the two states.
pub proof fn lemma_previous_state(app: AppView, calls: Seq<State>)
    ensures
        calls.len() == 0 ==> app.after(calls) == app,
        calls.len() >= 1 ==> app.after(calls).state == calls.last(),
        calls.len() == 1 ==> app.after(calls).previous_state == Some(app.state),
        calls.len() >= 2 ==> app.after(calls).previous_state == Some(calls[calls.len() - 2]),
        app.after(calls) == (AppView {
            state: app.after(calls).state,
            previous_state: app.after(calls).previous_state,
            ..app
        }),
    decreases calls.len(),
{
    if calls.len() >= 1 {
        lemma_previous_state(app, calls.drop_last());
        if calls.len() >= 2 {
            assert(calls.drop_last().last() == calls[calls.len() - 2]);
        }
    }
}

/// At every point of a run of transitions, the remembered state is the
/// target of the transition before: after the first `k` of them, with
/// `k >= 2`, it is the target of the one numbered `k - 1`.
pub proof fn lemma_previous_state_at_each_step(app: AppView, calls: Seq<State>, k: int)
    requires
        2 <= k <= calls.len(),
    ensures
        app.after(calls.take(k)).previous_state == Some(calls[k - 2]),
        app.after(calls.take(k)).state == calls[k - 1],
{
    lemma_previous_state(app, calls.take(k));
}

/// Clearing leaves the message log empty and the chat view at the top,
/// whatever the log held and wherever the view was scrolled to, and clearing
/// twice is clearing once.
pub proof fn lemma_clear_resets_log_and_scroll(app: AppView)
    ensures
        app.cleared().messages.len() == 0,
        app.cleared().components.chat.scroll_offset.offset == 0,
        app.cleared().cleared() == app.cleared(),
        app.cleared().state == app.state,
        app.cleared().previous_state == app.previous_state,
{
}

/// A key press on a reserved binding never reaches a view, in any state;
/// every other event reaches the view of the current state and leaves the
/// controller as it was.
pub proof fn lemma_global_keybind_is_intercepted(app: AppView, event: Event)
    ensures
        is_global_event(event) ==> app.dispatch_of(event) == EventDispatch::Consumed,
        is_global_event(event) ==> app.after_event(event).state == app.state,
        !is_global_event(event) ==> app.dispatch_of(event) == EventDispatch::Forward(app.state),
        !is_global_event(event) ==> app.after_event(event) == app,
        is_global_event(Event::Input(crate::events::Key::Ctrl('d'))),
{
}

/// Within one tick the frame and the event agree on the active view: the
/// view that a frame above the size floor shows is the view of the state that
/// an event is forwarded to, and drawing changes nothing in between.
pub proof fn lemma_draw_and_event_agree(app: AppView, frame: Rect, event: Event)
    requires
        frame.in_bounds(),
        !is_global_event(event),
        !content_area(app.config.frontend.state_tabs, frame).too_small(),
    ensures
        app.dispatch_of(event) == EventDispatch::Forward(app.state),
        app.plan(frame).view == view_of_state(app.state),
        app.after_event(event).plan(frame) == app.plan(frame),
{
}

} // verus!
