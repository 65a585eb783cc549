//! Find-bar decisions: how the find-in-page controller reacts to the search
//! entry.
//!
//! The entry reports two events with a query attached: the enter key
//! (activate) and an edit of the text.  The controller either continues the
//! running search, starts a fresh one, or finishes searching; the caller
//! performs the chosen action on the engine's find controller.

use vstd::prelude::*;

verus! {

/// What the find controller is told to do.
#[derive(Clone, Copy, PartialEq, Eq, Structural, Debug)]
pub enum FindAction {
    /// Move on to the next match of the search already running.
    SearchNext,
    /// Count the matches of the query and search for it, wrapping around and
    /// ignoring case.
    StartSearch,
    /// End the search session and clear the match count.
    FinishSearch,
}

/// Reaction to the enter key in the search entry: when the query is already
/// the running search, move to its next match; otherwise start searching for
/// the query.
pub fn on_search_activate(query: &String, active_search: Option<&String>) -> (action: FindAction)
    ensures
        action == (match active_search {
            Some(running) => if running@ == query@ {
                FindAction::SearchNext
            } else {
                FindAction::StartSearch
            },
            None => FindAction::StartSearch,
        }),
{
    match active_search {
        Some(running) => {
            if *running == *query {
                FindAction::SearchNext
            } else {
                FindAction::StartSearch
            }
        },
        None => FindAction::StartSearch,
    }
}

/// Reaction to an edited query: an emptied entry finishes the search, any
/// other text is searched for at once.
pub fn on_search_changed(query: &String) -> (action: FindAction)
    ensures
        action == (if query@.len() == 0 {
            FindAction::FinishSearch
        } else {
            FindAction::StartSearch
        }),
{
    if query.as_str().is_empty() {
        FindAction::FinishSearch
    } else {
        FindAction::StartSearch
    }
}

} // verus!
