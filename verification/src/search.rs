//! The search-and-select widget: a list of remotely fetched candidates, a
//! filter text, and a cursor.
//!
//! Fetching is the caller's work. Focusing the widget hands out a ticket; the
//! caller fetches and reports the outcome under that ticket. Only the ticket
//! of the fetch in flight is honoured, so an outcome that arrives after the
//! widget lost focus, or after a later fetch began, changes nothing.

use vstd::prelude::*;
use crate::action::TerminalAction;
use crate::events::{Event, Key};

verus! {

/// What a candidate must offer to be searched.
pub trait SearchItem: Sized {
    /// Whether the candidate is listed under the filter text.
    spec fn matches_spec(&self, filter: Seq<char>) -> bool;

    /// Decides `matches_spec` at run time.
    fn matches(&self, filter: &Vec<char>) -> (hit: bool)
        ensures
            hit == self.matches_spec(filter@),
    ;
}

/// Why a fetch brought no list.
#[derive(Clone, Copy, Debug, PartialEq, Eq, Structural)]
pub enum FetchError {
    /// The token lacks the scope that the request needs.
    Permission,
    /// The service did not answer.
    Unavailable,
}

/// What the widget shows.
#[derive(Clone, Debug, PartialEq, Eq)]
pub enum SearchScreen {
    /// Nothing: the widget has no focus.
    Hidden,
    /// The fixed explanation of a failed fetch.
    Failure,
    /// The filter text and the candidates listed under it.
    Candidates {
        /// Positions, in the fetched list, of the candidates listed.
        visible: Vec<usize>,
        /// Position of the cursor in `visible`.
        selected: usize,
        /// Whether the list is still being fetched.
        loading: bool,
    },
}

/// The widget as a mathematical value.
pub struct SearchView<T> {
    pub focused: bool,
    /// The ticket of the fetch in flight.
    pub pending: Option<u64>,
    /// The ticket that the next fetch will get.
    pub next_ticket: u64,
    /// Whether the latest fetch failed.
    pub failed: bool,
    pub items: Seq<T>,
    pub filter: Seq<char>,
    /// Position of the cursor among the listed candidates.
    pub selected: nat,
}

/// Positions below `n` of the candidates that `filter` lists, ascending.
pub open spec fn matching_upto<T: SearchItem>(items: Seq<T>, filter: Seq<char>, n: nat) -> Seq<int>
    recommends
        n <= items.len(),
    decreases n,
{
    if n == 0 {
        Seq::empty()
    } else {
        let rest = matching_upto(items, filter, (n - 1) as nat);
        if items[n - 1].matches_spec(filter) {
            rest.push(n - 1)
        } else {
            rest
        }
    }
}

impl<T: SearchItem> SearchView<T> {
    /// The widget without focus: no list, no text, no fetch, no failure.
    pub open spec fn idle(next_ticket: u64) -> Self {
        SearchView {
            focused: false,
            pending: None,
            next_ticket,
            failed: false,
            items: Seq::empty(),
            filter: Seq::empty(),
            selected: 0,
        }
    }

    /// Everything but the ticket counter is as in a widget that never had focus.
    pub open spec fn is_idle(self) -> bool {
        self == Self::idle(self.next_ticket)
    }

    /// What every reachable widget satisfies.
    pub open spec fn well_formed(self) -> bool {
        &&& !self.focused ==> self.is_idle()
        &&& self.failed ==> self.pending.is_none() && self.items.len() == 0
        &&& self.pending matches Some(t) ==> t < self.next_ticket && self.items.len() == 0
        &&& self.selected == 0 || self.selected < self.visible().len()
    }

    /// Positions of the candidates listed under the current filter.
    pub open spec fn visible(self) -> Seq<int> {
        matching_upto(self.items, self.filter, self.items.len())
    }

    /// The ticket that `toggled` hands out: one when focus is gained and the
    /// counter has not run out.
    pub open spec fn toggle_ticket(self) -> Option<u64> {
        if !self.focused && self.next_ticket < u64::MAX {
            Some(self.next_ticket)
        } else {
            None
        }
    }

    /// The widget after focus was toggled. Losing focus discards everything.
    /// Gaining it starts a fetch under a fresh ticket; with no ticket left the
    /// fetch cannot be asked for and counts as failed.
    pub open spec fn toggled(self) -> Self {
        if self.focused {
            Self::idle(self.next_ticket)
        } else if self.next_ticket < u64::MAX {
            SearchView {
                focused: true,
                pending: Some(self.next_ticket),
                next_ticket: (self.next_ticket + 1) as u64,
                failed: false,
                items: Seq::empty(),
                filter: Seq::empty(),
                selected: 0,
            }
        } else {
            SearchView {
                focused: true,
                pending: None,
                next_ticket: self.next_ticket,
                failed: true,
                items: Seq::empty(),
                filter: Seq::empty(),
                selected: 0,
            }
        }
    }

    /// Whether an outcome reported under `ticket` is the one awaited.
    pub open spec fn awaits(self, ticket: u64) -> bool {
        self.focused && self.pending == Some(ticket)
    }

    /// The widget after the fetch under `ticket` ended in `outcome`.
    pub open spec fn resolved(self, ticket: u64, outcome: Result<Seq<T>, FetchError>) -> Self {
        if !self.awaits(ticket) {
            self
        } else {
            match outcome {
                Ok(items) => SearchView { pending: None, failed: false, items, selected: 0, ..self },
                Err(_) => SearchView {
                    pending: None,
                    failed: true,
                    items: Seq::empty(),
                    selected: 0,
                    ..self
                },
            }
        }
    }

    /// The cursor one candidate further down, wrapping to the top.
    pub open spec fn cursor_below(self) -> nat {
        if self.selected + 1 < self.visible().len() {
            self.selected + 1
        } else {
            0
        }
    }

    /// The cursor one candidate further up, wrapping to the bottom.
    pub open spec fn cursor_above(self) -> nat {
        if self.visible().len() == 0 {
            0
        } else if self.selected == 0 || self.selected >= self.visible().len() {
            (self.visible().len() - 1) as nat
        } else {
            (self.selected - 1) as nat
        }
    }

    /// Whether the commit key selects a candidate.
    pub open spec fn can_commit(self) -> bool {
        self.focused && !self.failed && self.selected < self.visible().len()
    }

    /// The candidate under the cursor.
    pub open spec fn chosen(self) -> T
        recommends
            self.can_commit(),
    {
        self.items[self.visible()[self.selected as int]]
    }

    /// The widget after a key press.
    pub open spec fn after_key(self, key: Key) -> Self {
        if !self.focused {
            self
        } else if key == Key::Esc {
            Self::idle(self.next_ticket)
        } else if self.failed {
            self
        } else {
            match key {
                Key::Enter => if self.can_commit() {
                    Self::idle(self.next_ticket)
                } else {
                    self
                },
                Key::Down | Key::ScrollDown => SearchView { selected: self.cursor_below(), ..self },
                Key::Up | Key::ScrollUp => SearchView { selected: self.cursor_above(), ..self },
                Key::Char(c) => SearchView { filter: self.filter.push(c), selected: 0, ..self },
                Key::Backspace => SearchView {
                    filter: if self.filter.len() > 0 {
                        self.filter.drop_last()
                    } else {
                        self.filter
                    },
                    selected: 0,
                    ..self
                },
                _ => self,
            }
        }
    }

    /// What a key press asks of the caller.
    pub open spec fn key_action(self, key: Key) -> Option<TerminalAction<T>> {
        if !self.focused {
            None
        } else if key == Key::Esc {
            Some(TerminalAction::BackOneLayer)
        } else if key == Key::Enter && self.can_commit() {
            Some(TerminalAction::Enter(self.chosen()))
        } else {
            None
        }
    }

    /// The widget after an event: only key presses change it.
    pub open spec fn after_event(self, event: Event) -> Self {
        match event {
            Event::Input(key) => self.after_key(key),
            Event::Tick => self,
        }
    }

    /// What an event asks of the caller.
    pub open spec fn event_action(self, event: Event) -> Option<TerminalAction<T>> {
        match event {
            Event::Input(key) => self.key_action(key),
            Event::Tick => None,
        }
    }
}

/// A list of positions, read as integers.
pub open spec fn positions(v: Seq<usize>) -> Seq<int> {
    v.map_values(|k: usize| k as int)
}

/// A fetch outcome with its list read as a sequence.
pub open spec fn outcome_view<T>(outcome: Result<Vec<T>, FetchError>) -> Result<Seq<T>, FetchError> {
    match outcome {
        Ok(items) => Ok(items@),
        Err(e) => Err(e),
    }
}

/// The widget itself. `T` is the kind of candidate it lists.
pub struct SearchWidget<T> {
    focused: bool,
    pending: Option<u64>,
    next_ticket: u64,
    failed: bool,
    items: Vec<T>,
    filter: Vec<char>,
    selected: usize,
    error_message: Vec<&'static str>,
}

impl<T> View for SearchWidget<T> {
    type V = SearchView<T>;

    closed spec fn view(&self) -> SearchView<T> {
        SearchView {
            focused: self.focused,
            pending: self.pending,
            next_ticket: self.next_ticket,
            failed: self.failed,
            items: self.items@,
            filter: self.filter@,
            selected: self.selected as nat,
        }
    }
}

impl<T: SearchItem> SearchWidget<T> {
    /// The lines shown when a fetch has failed.
    pub closed spec fn error_lines(&self) -> Seq<&'static str> {
        self.error_message@
    }

    /// A widget without focus that explains a failed fetch with `error_message`.
    pub fn new(error_message: Vec<&'static str>) -> (widget: Self)
        ensures
            widget@ == SearchView::<T>::idle(0),
            widget@.well_formed(),
            widget.error_lines() == error_message@,
    {
        SearchWidget {
            focused: false,
            pending: None,
            next_ticket: 0,
            failed: false,
            items: Vec::new(),
            filter: Vec::new(),
            selected: 0,
            error_message,
        }
    }

    /// Whether the widget owns the input focus.
    pub fn is_focused(&self) -> (focused: bool)
        ensures
            focused == self@.focused,
    {
        self.focused
    }

    /// The filter text typed so far.
    pub fn filter(&self) -> (text: &Vec<char>)
        ensures
            text@ == self@.filter,
    {
        &self.filter
    }

    /// The candidates of the latest fetch, listed or not.
    pub fn items(&self) -> (items: &Vec<T>)
        ensures
            items@ == self@.items,
    {
        &self.items
    }

    /// The lines that explain a failed fetch.
    pub fn error_message(&self) -> (lines: &Vec<&'static str>)
        ensures
            lines@ == self.error_lines(),
    {
        &self.error_message
    }

    fn reset(&mut self)
        ensures
            final(self)@ == SearchView::<T>::idle(old(self)@.next_ticket),
            final(self).error_lines() == old(self).error_lines(),
    {
        self.focused = false;
        self.pending = None;
        self.failed = false;
        self.items = Vec::new();
        self.filter = Vec::new();
        self.selected = 0;
    }

    /// Gives up the focus, or takes it. Taking it returns the ticket under
    /// which the caller fetches the candidates and reports the outcome.
    pub fn toggle_focus(&mut self) -> (ticket: Option<u64>)
        ensures
            final(self)@ == old(self)@.toggled(),
            ticket == old(self)@.toggle_ticket(),
            final(self).error_lines() == old(self).error_lines(),
    {
        if self.focused {
            self.reset();
            None
        } else {
            self.items = Vec::new();
            self.filter = Vec::new();
            self.selected = 0;
            self.focused = true;
            if self.next_ticket < u64::MAX {
                let ticket: u64 = self.next_ticket;
                self.pending = Some(ticket);
                self.next_ticket = ticket + 1;
                self.failed = false;
                Some(ticket)
            } else {
                self.pending = None;
                self.failed = true;
                None
            }
        }
    }

    /// Takes the outcome of the fetch that ran under `ticket`. It is applied
    /// only if that fetch is the one awaited; otherwise nothing changes.
    pub fn fetch_resolved(&mut self, ticket: u64, outcome: Result<Vec<T>, FetchError>)
        ensures
            final(self)@ == old(self)@.resolved(ticket, outcome_view(outcome)),
            final(self).error_lines() == old(self).error_lines(),
    {
        let awaited = self.focused && match self.pending {
            Some(t) => t == ticket,
            None => false,
        };
        if awaited {
            self.pending = None;
            self.selected = 0;
            match outcome {
                Ok(items) => {
                    self.failed = false;
                    self.items = items;
                },
                Err(_) => {
                    self.failed = true;
                    self.items = Vec::new();
                },
            }
        }
    }

    /// Positions of the candidates listed under the current filter.
    pub fn visible_indices(&self) -> (visible: Vec<usize>)
        ensures
            positions(visible@) == self@.visible(),
            forall|k: int| 0 <= k < visible@.len() ==> visible@[k] < self@.items.len(),
    {
        let mut visible: Vec<usize> = Vec::new();
        let mut i: usize = 0;
        while i < self.items.len()
            invariant
                i <= self.items.len(),
                positions(visible@) == matching_upto(self.items@, self.filter@, i as nat),
                forall|k: int| 0 <= k < visible@.len() ==> visible@[k] < i,
            decreases self.items.len() - i,
        {
            let ghost before = visible@;
            if self.items[i].matches(&self.filter) {
                visible.push(i);
                assert(positions(visible@) =~= positions(before).push(i as int));
            }
            i += 1;
        }
        visible
    }

    /// What the widget shows: nothing without focus, the explanation after a
    /// failed fetch, else the listed candidates, which may be none.
    pub fn draw(&self) -> (screen: SearchScreen)
        ensures
            match screen {
                SearchScreen::Hidden => !self@.focused,
                SearchScreen::Failure => self@.focused && self@.failed,
                SearchScreen::Candidates { visible, selected, loading } => {
                    &&& self@.focused && !self@.failed
                    &&& positions(visible@) == self@.visible()
                    &&& selected == self@.selected
                    &&& loading == self@.pending.is_some()
                },
            },
    {
        if !self.focused {
            SearchScreen::Hidden
        } else if self.failed {
            SearchScreen::Failure
        } else {
            SearchScreen::Candidates {
                visible: self.visible_indices(),
                selected: self.selected,
                loading: self.pending.is_some(),
            }
        }
    }

    /// Handles an event. Text keys edit the filter, arrow keys move the
    /// cursor, escape gives up the focus, and the commit key hands out the
    /// candidate under the cursor and gives up the focus.
    pub fn event(&mut self, event: &Event) -> (action: Option<TerminalAction<T>>)
        ensures
            final(self)@ == old(self)@.after_event(*event),
            action == old(self)@.event_action(*event),
            final(self).error_lines() == old(self).error_lines(),
    {
        if !self.focused {
            return None;
        }
        let key = match event {
            Event::Input(key) => *key,
            Event::Tick => {
                return None;
            },
        };
        if let Key::Esc = key {
            self.reset();
            return Some(TerminalAction::BackOneLayer);
        }
        if self.failed {
            return None;
        }
        match key {
            Key::Enter => {
                let visible = self.visible_indices();
                if self.selected < visible.len() {
                    let at: usize = visible[self.selected];
                    assert(at as int == positions(visible@)[self.selected as int]);
                    let item = self.items.remove(at);
                    self.reset();
                    Some(TerminalAction::Enter(item))
                } else {
                    None
                }
            },
            Key::Down | Key::ScrollDown => {
                let visible = self.visible_indices();
                assert(positions(visible@).len() == visible@.len());
                if visible.len() > 0 && self.selected < visible.len() - 1 {
                    self.selected = self.selected + 1;
                } else {
                    self.selected = 0;
                }
                None
            },
            Key::Up | Key::ScrollUp => {
                let visible = self.visible_indices();
                assert(positions(visible@).len() == visible@.len());
                if visible.len() == 0 {
                    self.selected = 0;
                } else if self.selected == 0 || self.selected >= visible.len() {
                    self.selected = visible.len() - 1;
                } else {
                    self.selected = self.selected - 1;
                }
                None
            },
            Key::Char(c) => {
                self.filter.push(c);
                self.selected = 0;
                None
            },
            Key::Backspace => {
                self.filter.pop();
                self.selected = 0;
                None
            },
            _ => None,
        }
    }
}

} // verus!
