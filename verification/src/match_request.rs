//! Shape of one upstream match-detail request.

use vstd::prelude::*;

verus! {

/// Ask the upstream for the detail of one player's recent matches.
pub struct MatchRequest<'a> {
    pub gamertag: &'a str,
    pub limit: Limit,
}

/// How many matches to return.
pub struct Limit {
    pub count: usize,
}

} // verus!
