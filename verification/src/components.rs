//! The state that the views keep between frames.

use vstd::prelude::*;
use crate::following::{FollowingWidget, error_message_lines};
use crate::search::SearchView;
use crate::following::StreamingUser;

verus! {

/// How far a view is scrolled away from its newest line.
#[derive(Clone, Copy, Debug, PartialEq, Eq, Structural)]
pub struct Scrolling {
    pub offset: usize,
}

impl Scrolling {
    /// A view that is not scrolled.
    pub fn new() -> (scrolling: Self)
        ensures
            scrolling.offset == 0,
    {
        Scrolling { offset: 0 }
    }

    /// Scrolls to `index`.
    pub fn jump_to(&mut self, index: usize)
        ensures
            final(self).offset == index,
    {
        self.offset = index;
    }

    /// The current offset.
    pub fn get_offset(&self) -> (offset: usize)
        ensures
            offset == self.offset,
    {
        self.offset
    }
}

/// The panel of diagnostics that can cover the screen.
#[derive(Clone, Copy, Debug, PartialEq, Eq, Structural)]
pub struct DebugWidget {
    pub focused: bool,
}

impl DebugWidget {
    /// A panel that is not shown.
    pub fn new() -> (panel: Self)
        ensures
            !panel.focused,
    {
        DebugWidget { focused: false }
    }

    /// Whether the panel is shown.
    pub fn is_focused(&self) -> (focused: bool)
        ensures
            focused == self.focused,
    {
        self.focused
    }

    /// Shows the panel if it is hidden, hides it if it is shown.
    pub fn toggle_focus(&mut self)
        ensures
            final(self).focused == !old(self).focused,
    {
        self.focused = !self.focused;
    }
}

/// The chat view: its scroll position and the channel search inside it.
pub struct ChatWidget {
    pub scroll_offset: Scrolling,
    pub following: FollowingWidget,
}

/// The views that keep state.
pub struct Components {
    pub chat: ChatWidget,
    pub debug: DebugWidget,
}

impl Components {
    /// Whether these are the views of a freshly started client.
    pub open spec fn is_initial(&self) -> bool {
        &&& self.chat.scroll_offset.offset == 0
        &&& self.chat.following.search_widget@ == SearchView::<StreamingUser>::idle(0)
        &&& self.chat.following.search_widget.error_lines() == error_message_lines()
        &&& !self.debug.focused
    }

    /// The views of a freshly started client: nothing scrolled, nothing
    /// focused.
    pub fn new() -> (components: Self)
        ensures
            components.is_initial(),
    {
        Components {
            chat: ChatWidget { scroll_offset: Scrolling::new(), following: FollowingWidget::new() },
            debug: DebugWidget::new(),
        }
    }
}

} // verus!
