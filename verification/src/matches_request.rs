//! Shape of one upstream match-list request.

use vstd::prelude::*;

verus! {

/// Ask the upstream for a player's most recent matches.
pub struct MatchesRequest<'a> {
    pub gamertag: &'a str,
    pub limit: Limit,
}

/// How many matches to return.
pub struct Limit {
    pub count: usize,
}

} // verus!
