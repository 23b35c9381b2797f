//! What holds of the search widget in every state it can reach.

use vstd::prelude::*;
use crate::events::{Event, Key};
use crate::action::TerminalAction;
use crate::search::{FetchError, SearchItem, SearchView};

verus! {

/// Toggling the focus keeps a widget well formed.
pub proof fn lemma_toggle_keeps_well_formed<T: SearchItem>(w: SearchView<T>)
    requires
        w.well_formed(),
    ensures
        w.toggled().well_formed(),
        w.toggled().focused == !w.focused,
{
}

/// Taking a fetch outcome keeps a widget well formed, whatever the ticket.
pub proof fn lemma_resolve_keeps_well_formed<T: SearchItem>(
    w: SearchView<T>,
    ticket: u64,
    outcome: Result<Seq<T>, FetchError>,
)
    requires
        w.well_formed(),
    ensures
        w.resolved(ticket, outcome).well_formed(),
{
}

/// Handling an event keeps a widget well formed.
pub proof fn lemma_event_keeps_well_formed<T: SearchItem>(w: SearchView<T>, event: Event)
    requires
        w.well_formed(),
    ensures
        w.after_event(event).well_formed(),
{
}

/// A widget that takes the focus and gives it up again before the fetch
/// ends is idle, and the late outcome of that fetch leaves it idle: nothing
/// tells it from a widget whose fetch never started.
pub proof fn lemma_stale_outcome_is_ignored<T: SearchItem>(
    w: SearchView<T>,
    outcome: Result<Seq<T>, FetchError>,
)
    requires
        w.well_formed(),
        !w.focused,
        w.toggle_ticket().is_some(),
    ensures
        w.toggled().awaits(w.toggle_ticket().unwrap()),
        w.toggled().toggled().is_idle(),
        w.toggled().toggled().resolved(w.toggle_ticket().unwrap(), outcome)
            == w.toggled().toggled(),
        w.toggled().toggled().resolved(w.toggle_ticket().unwrap(), outcome).is_idle(),
{
}

/// A widget without focus ignores every fetch outcome.
pub proof fn lemma_unfocused_ignores_outcomes<T: SearchItem>(
    w: SearchView<T>,
    ticket: u64,
    outcome: Result<Seq<T>, FetchError>,
)
    requires
        !w.focused,
    ensures
        w.resolved(ticket, outcome) == w,
{
}

/// The outcome of an earlier fetch does not reach a widget that has since
/// lost the focus and taken it again: only the later fetch is awaited.
pub proof fn lemma_refocus_ignores_older_fetch<T: SearchItem>(
    w: SearchView<T>,
    outcome: Result<Seq<T>, FetchError>,
)
    requires
        w.well_formed(),
        !w.focused,
        w.toggle_ticket().is_some(),
    ensures
        w.toggled().toggled().toggled().resolved(w.toggle_ticket().unwrap(), outcome)
            == w.toggled().toggled().toggled(),
{
}

/// No ticket is handed out twice: each is above every ticket before it.
pub proof fn lemma_tickets_are_fresh<T: SearchItem>(w: SearchView<T>)
    requires
        w.well_formed(),
        w.toggle_ticket().is_some(),
    ensures
        w.toggle_ticket().unwrap() == w.next_ticket,
        w.toggled().next_ticket == w.next_ticket + 1,
        w.pending matches Some(t) ==> t < w.toggle_ticket().unwrap(),
{
}

/// An empty list is a list: after a fetch that found nothing the widget
/// shows no failure, and lists no candidate.
pub proof fn lemma_empty_fetch_is_no_failure<T: SearchItem>(w: SearchView<T>, ticket: u64)
    requires
        w.awaits(ticket),
    ensures
        !w.resolved(ticket, Ok(Seq::empty())).failed,
        w.resolved(ticket, Ok(Seq::empty())).visible().len() == 0,
        w.resolved(ticket, Err(FetchError::Permission)).failed,
        w.resolved(ticket, Err(FetchError::Unavailable)).failed,
{
}

/// On a well-formed widget that lists at least one candidate, the commit
/// key hands out the candidate under the cursor, which is one of the fetched
/// candidates that the filter lists, and the widget gives up the focus.
pub proof fn lemma_commit_hands_out_listed_item<T: SearchItem>(w: SearchView<T>)
    requires
        w.well_formed(),
        w.focused,
        !w.failed,
        w.visible().len() > 0,
    ensures
        w.key_action(Key::Enter) == Some(TerminalAction::Enter(w.chosen())),
        w.after_key(Key::Enter).is_idle(),
        exists|i: int| 0 <= i < w.items.len() && w.items[i] == w.chosen() && w.items[i].matches_spec(w.filter),
{
    let at = w.visible()[w.selected as int];
    lemma_listed_positions(w.items, w.filter, w.items.len(), w.selected as int);
    assert(0 <= at < w.items.len() && w.items[at] == w.chosen() && w.items[at].matches_spec(w.filter));
}

/// Every position that `matching_upto` lists is below `n` and holds a
/// candidate that the filter lists.
pub proof fn lemma_listed_positions<T: SearchItem>(items: Seq<T>, filter: Seq<char>, n: nat, k: int)
    requires
        n <= items.len(),
        0 <= k < crate::search::matching_upto(items, filter, n).len(),
    ensures
        0 <= crate::search::matching_upto(items, filter, n)[k] < n,
        items[crate::search::matching_upto(items, filter, n)[k]].matches_spec(filter),
    decreases n,
{
    if n > 0 {
        let rest = crate::search::matching_upto(items, filter, (n - 1) as nat);
        if k < rest.len() {
            lemma_listed_positions(items, filter, (n - 1) as nat, k);
        }
    }
}

} // verus!
