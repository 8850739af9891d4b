//! Decisions of the full-text-search page.
//!
//! The search proxy itself is a stateless wrapper around an HTTP client and
//! lives with the surrounding process; what is decided here is when a search
//! is attempted at all, and how its outcome is shown as the page's hit
//! count.

use vstd::prelude::*;

verus! {

/// The query parameters of the search page: the text the user searched for,
/// if any.
pub struct SearchParams {
    pub q: Option<String>,
}

impl SearchParams {
    /// A search is attempted exactly when a non-empty query was given.
    pub fn should_search(&self) -> (r: bool)
        ensures
            r == (self.q matches Some(s) && s@.len() > 0),
    {
        match &self.q {
            Some(s) => !s.as_str().is_empty(),
            None => false,
        }
    }

    /// The query text the page echoes back: the given query, or empty when
    /// none was given.
    pub fn query_or_empty(&self) -> (r: String)
        ensures
            match self.q {
                Some(s) => r@ == s@,
                None => r@ == Seq::<char>::empty(),
            },
    {
        match &self.q {
            Some(s) => s.clone(),
            None => String::new(),
        }
    }
}

/// How a request to the search service ended, as far as the page cares: it
/// was never attempted, it failed, or it found some number of hits.
#[derive(Clone, Copy, PartialEq, Eq, Structural, Debug)]
pub enum SearchOutcome {
    NotSearched,
    Failed,
    Found(u32),
}

/// The hit count a search outcome is shown as: a real count when the search
/// succeeded, or a fixed negative code for "not searched" and "failed".
pub open spec fn spec_total_hits(outcome: SearchOutcome) -> int {
    match outcome {
        SearchOutcome::NotSearched => -1,
        SearchOutcome::Failed => -2,
        SearchOutcome::Found(n) => n as int,
    }
}

/// Map a search outcome to the hit count the page shows.
pub fn total_hits_code(outcome: &SearchOutcome) -> (r: i64)
    ensures
        r == spec_total_hits(*outcome),
{
    match outcome {
        SearchOutcome::NotSearched => -1,
        SearchOutcome::Failed => -2,
        SearchOutcome::Found(n) => *n as i64,
    }
}

} // verus!
