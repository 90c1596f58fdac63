//! Shape of one upstream match-detail reply: the whole match, every player
//! and both teams, as the notification needs it.
//!
//! Team skill ratings are fractional and are read only by the
//! projected-to-win comparison, which lives with the rendering outside the
//! library; the plain counters the library aggregates are all here.

use vstd::prelude::*;

verus! {

/// One reply to a match-detail request.
pub struct MatchResponse {
    pub data: Data,
}

/// The payload of a match-detail reply.
pub struct Data {
    pub teams: Teams,
    pub players: Vec<Player>,
}

/// One participant of the match.
pub struct Player {
    pub stats: Stats,
}

/// Per-team details of the match.
pub struct Teams {
    pub details: Vec<TeamDetail>,
}

/// One team's slice of the match.
pub struct TeamDetail {
    pub team: Team,
    pub stats: Stats,
}

/// Statistics container.
pub struct Stats {
    pub core: CoreStats,
}

/// The core counters of one participant or team.
pub struct CoreStats {
    pub damage: Damage,
    pub summary: Summary,
}

/// Kills, deaths and assists.
pub struct Summary {
    pub kills: usize,
    pub deaths: usize,
    pub assists: usize,
}

/// Damage dealt and taken.
pub struct Damage {
    pub dealt: usize,
    pub taken: usize,
}

/// One team of the match.
pub struct Team {
    pub id: usize,
    pub name: String,
}

} // verus!
