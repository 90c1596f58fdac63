//! Shape of one upstream "latest matches" request.

use vstd::prelude::*;

verus! {

/// Ask the upstream for the most recent matches of one gamertag.
pub struct Request<'a> {
    pub gamertag: &'a str,
    pub limit: Limit,
}

/// How many matches to return; the poll cycle only ever asks for one.
pub struct Limit {
    pub count: usize,
}

impl<'a> Request<'a> {
    /// The request the poll cycle sends: the single most recent match.
    pub fn latest_for(gamertag: &'a str) -> (r: Request<'a>)
        ensures
            r.gamertag@ == gamertag@,
            r.limit.count == 1,
    {
        Request { gamertag, limit: Limit { count: 1 } }
    }
}

} // verus!
