//! Shape of one upstream "latest matches" reply.
//!
//! These are the plain values the poll cycle works on. The transport layer
//! decodes the upstream payload into this shape before anything here touches
//! it; timestamps are carried as the text the upstream sent, since the engine
//! only hands them through to the sink.

use vstd::prelude::*;

verus! {

/// One reply to a "latest matches" request: the matches found (newest first)
/// and the echo of who was asked about.
pub struct Response {
    pub data: Vec<Data>,
    pub additional: Additional,
}

/// One match as the upstream reports it.
pub struct Data {
    /// Stable identifier of the match; the watermark the engine stores.
    pub id: String,
    pub details: Details,
    pub player: Player,
    /// Timestamp text as received from the upstream.
    pub played_at: String,
}

/// Echo of the request: whose matches these are.
pub struct Additional {
    pub gamertag: String,
}

/// Where and in which mode the match was played.
pub struct Details {
    pub category: Category,
    pub map: GameMap,
}

/// Game mode of the match.
pub struct Category {
    pub name: String,
}

/// Map the match was played on.
pub struct GameMap {
    pub name: String,
    pub asset: MapAsset,
}

/// Art assets for a map.
pub struct MapAsset {
    pub thumbnail_url: String,
}

/// The tracked player's own slice of the match.
pub struct Player {
    pub stats: Stats,
    pub rank: usize,
    pub outcome: Outcome,
    pub progression: Progression,
}

/// Rank progression attached to a ranked match.
pub struct Progression {
    pub csr: Csr,
}

/// Skill rating before and after the match.
pub struct Csr {
    pub pre_match: CsrResult,
    pub post_match: CsrResult,
}

/// One skill-rating snapshot.
pub struct CsrResult {
    pub tier: String,
    pub value: usize,
    pub tier_start: usize,
    pub sub_tier: usize,
    pub tier_image_url: String,
}

/// How the match ended for the tracked player.
pub enum Outcome {
    Win,
    Loss,
}

/// Statistics container.
pub struct Stats {
    pub core: CoreStats,
}

/// The core per-player counters of a match.
pub struct CoreStats {
    pub summary: Summary,
    pub damage: Damage,
    pub breakdowns: Breakdowns,
}

/// Per-category breakdowns of a match.
pub struct Breakdowns {
    pub medals: Vec<Medal>,
}

/// One medal earned in the match.
pub struct Medal {
    pub name: String,
}

/// Kills, deaths and assists.
pub struct Summary {
    pub kills: usize,
    pub deaths: usize,
    pub assists: usize,
}

/// Damage dealt and taken.
pub struct Damage {
    pub taken: usize,
    pub dealt: usize,
}

} // verus!
