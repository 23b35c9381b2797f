//! Screen areas, and the decision of what is drawn where.

use vstd::prelude::*;
use crate::state::State;

verus! {

/// The fewest rows in which a view is drawn legibly.
pub const MINIMUM_HEIGHT: u16 = 10;

/// The fewest columns in which a view is drawn legibly.
pub const MINIMUM_WIDTH: u16 = 60;

/// A rectangle of terminal cells.
#[derive(Clone, Copy, Debug, PartialEq, Eq, Structural)]
pub struct Rect {
    pub x: u16,
    pub y: u16,
    pub width: u16,
    pub height: u16,
}

impl Rect {
    /// The rectangle's right and bottom edges are terminal coordinates too.
    pub open spec fn in_bounds(self) -> bool {
        self.x + self.width <= u16::MAX && self.y + self.height <= u16::MAX
    }

    /// Below the floor no view is guaranteed to render legibly.
    pub open spec fn too_small(self) -> bool {
        self.height < MINIMUM_HEIGHT || self.width < MINIMUM_WIDTH
    }

    /// Decides `too_small` at run time.
    pub fn is_too_small(&self) -> (small: bool)
        ensures
            small == self.too_small(),
    {
        self.height < MINIMUM_HEIGHT || self.width < MINIMUM_WIDTH
    }
}

/// What fills the content area of a frame.
#[derive(Clone, Copy, Debug, PartialEq, Eq, Structural)]
pub enum MainView {
    /// The notice that the terminal is too small.
    Error,
    Dashboard,
    Chat,
    Help,
}

/// Everything a frame shows, in drawing order: the tab strip, the main view,
/// then the debug panel on top.
#[derive(Clone, Copy, Debug, PartialEq, Eq, Structural)]
pub struct DrawPlan {
    /// Where the strip of state tabs goes, if one is drawn.
    pub tabs: Option<Rect>,
    /// The view that fills the frame.
    pub view: MainView,
    /// Where that view is drawn.
    pub area: Rect,
    /// Whether the debug panel covers the whole frame afterwards.
    pub debug_overlay: bool,
}

/// The view that belongs to a state.
pub open spec fn view_of_state(state: State) -> MainView {
    match state {
        State::Dashboard => MainView::Dashboard,
        State::Normal => MainView::Chat,
        State::Help => MainView::Help,
    }
}

/// The view drawn for `state` when `content` is the room left for it.
pub open spec fn main_view(state: State, content: Rect) -> MainView {
    if content.too_small() {
        MainView::Error
    } else {
        view_of_state(state)
    }
}

/// The plan of a frame whose content area and tab strip are already laid out.
/// The error view takes the whole frame; every other view takes `content`.
pub open spec fn frame_plan(
    state: State,
    debug_focused: bool,
    frame: Rect,
    content: Rect,
    tabs: Option<Rect>,
) -> DrawPlan {
    DrawPlan {
        tabs,
        view: main_view(state, content),
        area: if content.too_small() { frame } else { content },
        debug_overlay: debug_focused,
    }
}

/// Builds the plan of a frame from its layout.
pub fn plan_frame(
    state: State,
    debug_focused: bool,
    frame: Rect,
    content: Rect,
    tabs: Option<Rect>,
) -> (plan: DrawPlan)
    ensures
        plan == frame_plan(state, debug_focused, frame, content, tabs),
{
    if content.is_too_small() {
        DrawPlan { tabs, view: MainView::Error, area: frame, debug_overlay: debug_focused }
    } else {
        let view = match state {
            State::Dashboard => MainView::Dashboard,
            State::Normal => MainView::Chat,
            State::Help => MainView::Help,
        };
        DrawPlan { tabs, view, area: content, debug_overlay: debug_focused }
    }
}

/// Two rectangles stacked in `area`: the first takes `upper` rows from the
/// top, the second takes `lower` rows right below it, and both are as wide
/// as the area.
pub open spec fn stacked_rows(area: Rect, upper: u16, lower: u16) -> Seq<Rect> {
    seq![
        Rect { x: area.x, y: area.y, width: area.width, height: upper },
        Rect { x: area.x, y: (area.y + upper) as u16, width: area.width, height: lower },
    ]
}

/// Calls `tui::layout::Layout::split` on a vertical layout with the two
/// constraints `Length(upper)` and `Length(lower)`.
///
/// Assumed, not proved: when the two lengths add up to the height of the
/// area, the engine returns the two rectangles stacked as `stacked_rows`
/// says. The engine hands its solver these demands: every part starts at the
/// area's left edge and is as wide as the area, the first part starts at the
/// top, each part ends where the next begins, the last part ends at the
/// bottom, and each part should have the length asked for. With lengths that
/// fill the height they hold all at once, and in this way only. An area whose
/// right or bottom edge leaves the coordinate range is kept out: the engine
/// clips those edges, and its solver then rejects the demands.
#[verifier::external_body]
fn split_rows(area: Rect, upper: u16, lower: u16) -> (parts: Vec<Rect>)
    requires
        area.in_bounds(),
        upper + lower == area.height,
    ensures
        parts@ == stacked_rows(area, upper, lower),
{
    let whole = tui::layout::Rect { x: area.x, y: area.y, width: area.width, height: area.height };
    let parts = tui::layout::Layout::default()
        .direction(tui::layout::Direction::Vertical)
        .constraints(vec![tui::layout::Constraint::Length(upper), tui::layout::Constraint::Length(lower)])
        .split(whole);
    parts.iter().map(|r| Rect { x: r.x, y: r.y, width: r.width, height: r.height }).collect()
}

/// A tab strip is drawn when it is switched on and the frame has a row to
/// give to it.
pub open spec fn reserves_tab_row(state_tabs: bool, frame: Rect) -> bool {
    state_tabs && frame.height >= 1
}

/// The content area of a frame: all of it, or all but the bottom row where
/// that row goes to the tab strip.
pub open spec fn content_area(state_tabs: bool, frame: Rect) -> Rect {
    if reserves_tab_row(state_tabs, frame) {
        Rect { height: (frame.height - 1) as u16, ..frame }
    } else {
        frame
    }
}

/// The area of the tab strip, if the frame has one: its bottom row.
pub open spec fn tabs_area(state_tabs: bool, frame: Rect) -> Option<Rect> {
    if reserves_tab_row(state_tabs, frame) {
        Some(Rect { y: (frame.y + frame.height - 1) as u16, height: 1, ..frame })
    } else {
        None
    }
}

/// The plan of a frame, from the controller's state and the frame's size.
pub open spec fn draw_plan(state: State, state_tabs: bool, debug_focused: bool, frame: Rect) -> DrawPlan {
    frame_plan(
        state,
        debug_focused,
        frame,
        content_area(state_tabs, frame),
        tabs_area(state_tabs, frame),
    )
}

/// Lays out a frame and decides what it shows.
pub fn layout_frame(state: State, state_tabs: bool, debug_focused: bool, frame: Rect) -> (plan: DrawPlan)
    requires
        frame.in_bounds(),
    ensures
        plan == draw_plan(state, state_tabs, debug_focused, frame),
{
    if state_tabs && frame.height >= 1 {
        let parts = split_rows(frame, frame.height - 1, 1);
        let content = parts[0];
        let strip = parts[1];
        plan_frame(state, debug_focused, frame, content, Some(strip))
    } else {
        plan_frame(state, debug_focused, frame, frame, None)
    }
}

/// An area with fewer than ten rows or fewer than sixty columns shows the
/// error view, whatever the state; any other area shows the view of the state.
pub proof fn lemma_size_floor(
    state: State,
    debug_focused: bool,
    frame: Rect,
    content: Rect,
    tabs: Option<Rect>,
)
    ensures
        (content.height < 10 || content.width < 60) ==> frame_plan(
            state,
            debug_focused,
            frame,
            content,
            tabs,
        ).view == MainView::Error,
        (content.height >= 10 && content.width >= 60) ==> frame_plan(
            state,
            debug_focused,
            frame,
            content,
            tabs,
        ).view == view_of_state(state) && frame_plan(state, debug_focused, frame, content, tabs).area
            == content,
        view_of_state(state) != MainView::Error,
{
}

/// A frame with fewer than ten rows or fewer than sixty columns shows the
/// error view over the whole frame, in every state and with or without the
/// tab strip. A frame of at least ten rows and sixty columns, after the row
/// of the tab strip is taken off, shows the view of the state in the content
/// area.
pub proof fn lemma_frame_size_floor(state: State, state_tabs: bool, debug_focused: bool, frame: Rect)
    requires
        frame.in_bounds(),
    ensures
        (frame.height < 10 || frame.width < 60) ==> draw_plan(
            state,
            state_tabs,
            debug_focused,
            frame,
        ).view == MainView::Error && draw_plan(state, state_tabs, debug_focused, frame).area
            == frame,
        (!state_tabs && frame.height >= 10 && frame.width >= 60) ==> draw_plan(
            state,
            state_tabs,
            debug_focused,
            frame,
        ) == (DrawPlan {
            tabs: None,
            view: view_of_state(state),
            area: frame,
            debug_overlay: debug_focused,
        }),
        (state_tabs && frame.height >= 11 && frame.width >= 60) ==> draw_plan(
            state,
            state_tabs,
            debug_focused,
            frame,
        ).view == view_of_state(state) && draw_plan(state, state_tabs, debug_focused, frame).area
            == content_area(state_tabs, frame),
        (state_tabs && frame.height == 10) ==> draw_plan(
            state,
            state_tabs,
            debug_focused,
            frame,
        ).view == MainView::Error,
{
}

/// The tab strip and the content area share the frame between them: the
/// strip is the bottom row, the content area is the rest, and they do not
/// overlap.
pub proof fn lemma_tab_row_is_bottom_row(frame: Rect)
    requires
        frame.in_bounds(),
        frame.height >= 1,
    ensures
        tabs_area(true, frame).is_some(),
        tabs_area(true, frame).unwrap().height == 1,
        content_area(true, frame).height + 1 == frame.height,
        content_area(true, frame).y == frame.y,
        tabs_area(true, frame).unwrap().y == content_area(true, frame).y + content_area(
            true,
            frame,
        ).height,
        tabs_area(true, frame).unwrap().y + 1 == frame.y + frame.height,
        content_area(true, frame).width == frame.width,
        tabs_area(true, frame).unwrap().width == frame.width,
        content_area(true, frame).x == frame.x,
        tabs_area(true, frame).unwrap().x == frame.x,
{
}

} // verus!
