//! Whole-tick scenarios: one tracked identity, one fetch outcome, and what
//! the tick owes the store and the sink.

use match_tracker::match_checker::response::{
    Additional, Breakdowns, Category, CoreStats, Csr, CsrResult, Damage, Data, Details, GameMap,
    MapAsset, Outcome, Player, Progression, Response, Stats, Summary,
};
use match_tracker::match_checker::{
    apply_updates, reconcile, record_from_response, FetchOutcome, PollResult,
};
use match_tracker::roster::{Identity, Roster};

fn payload(id: &str) -> Data {
    Data {
        id: id.to_owned(),
        details: Details {
            category: Category { name: "Slayer".to_owned() },
            map: GameMap {
                name: "Aquarius".to_owned(),
                asset: MapAsset { thumbnail_url: "https://example.test/aquarius.png".to_owned() },
            },
        },
        player: Player {
            stats: Stats {
                core: CoreStats {
                    summary: Summary { kills: 15, deaths: 12, assists: 3 },
                    damage: Damage { taken: 1800, dealt: 1950 },
                    breakdowns: Breakdowns { medals: vec![] },
                },
            },
            rank: 3,
            outcome: Outcome::Loss,
            progression: Progression {
                csr: Csr {
                    pre_match: CsrResult {
                        tier: "Gold".to_owned(),
                        value: 900,
                        tier_start: 850,
                        sub_tier: 4,
                        tier_image_url: "https://example.test/gold.png".to_owned(),
                    },
                    post_match: CsrResult {
                        tier: "Gold".to_owned(),
                        value: 888,
                        tier_start: 850,
                        sub_tier: 4,
                        tier_image_url: "https://example.test/gold.png".to_owned(),
                    },
                },
            },
        },
        played_at: "2022-02-02T21:30:00Z".to_owned(),
    }
}

/// A roster with exactly `[{key: "foo", last_seen: "m1", enabled: true}]`.
fn roster_foo_m1() -> Roster {
    let mut roster = Roster::new();
    roster.register("foo");
    roster.advance_watermark(&"foo".to_owned(), &"m1".to_owned());
    roster
}

fn tick(roster: &mut Roster, fetched: Vec<(Response, bool)>) -> match_tracker::match_checker::TickActions {
    let listed: Vec<Identity> = roster
        .list_tracked()
        .iter()
        .map(|e| Identity {
            key: e.key.clone(),
            last_seen_record_id: e.last_seen_record_id.clone(),
            enabled: e.enabled,
        })
        .collect();
    let results: Vec<PollResult> = listed
        .into_iter()
        .zip(fetched.into_iter())
        .map(|(identity, (resp, eligible))| PollResult {
            outcome: match record_from_response(resp, eligible) {
                Some(rec) => FetchOutcome::Record(rec),
                None => FetchOutcome::NoRecords,
            },
            identity,
        })
        .collect();
    let actions = reconcile(results);
    apply_updates(roster, &actions.updates);
    actions
}

fn watermark_of(roster: &Roster, key: &str) -> Option<String> {
    roster
        .list_tracked()
        .iter()
        .find(|e| e.key == key)
        .and_then(|e| e.last_seen_record_id.clone())
}

#[test]
fn new_eligible_record_is_persisted_and_emitted() {
    let mut roster = roster_foo_m1();
    let resp = Response {
        data: vec![payload("m2")],
        additional: Additional { gamertag: "foo".to_owned() },
    };
    let actions = tick(&mut roster, vec![(resp, true)]);
    assert_eq!(watermark_of(&roster, "foo"), Some("m2".to_owned()));
    assert_eq!(actions.emissions.len(), 1);
    assert_eq!(actions.emissions[0].record_id, "m2");
}

#[test]
fn unchanged_record_writes_and_emits_nothing() {
    let mut roster = roster_foo_m1();
    let resp = Response {
        data: vec![payload("m1")],
        additional: Additional { gamertag: "foo".to_owned() },
    };
    let actions = tick(&mut roster, vec![(resp, true)]);
    assert!(actions.updates.is_empty());
    assert!(actions.emissions.is_empty());
    assert_eq!(watermark_of(&roster, "foo"), Some("m1".to_owned()));
}

#[test]
fn new_ineligible_record_is_persisted_but_not_emitted() {
    let mut roster = roster_foo_m1();
    let resp = Response {
        data: vec![payload("m3")],
        additional: Additional { gamertag: "foo".to_owned() },
    };
    let actions = tick(&mut roster, vec![(resp, false)]);
    assert_eq!(watermark_of(&roster, "foo"), Some("m3".to_owned()));
    assert!(actions.emissions.is_empty());
}

#[test]
fn disabled_identity_is_persisted_but_not_emitted() {
    let mut roster = roster_foo_m1();
    roster.toggle(&"foo".to_owned());
    let resp = Response {
        data: vec![payload("m2")],
        additional: Additional { gamertag: "foo".to_owned() },
    };
    let actions = tick(&mut roster, vec![(resp, true)]);
    assert_eq!(watermark_of(&roster, "foo"), Some("m2".to_owned()));
    assert!(actions.emissions.is_empty());
}

#[test]
fn one_failure_does_not_stall_the_other_identity() {
    let mut roster = roster_foo_m1();
    roster.register("bar");
    roster.advance_watermark(&"bar".to_owned(), &"m1".to_owned());
    let listed: Vec<Identity> = roster
        .list_tracked()
        .iter()
        .map(|e| Identity {
            key: e.key.clone(),
            last_seen_record_id: e.last_seen_record_id.clone(),
            enabled: e.enabled,
        })
        .collect();
    let results: Vec<PollResult> = listed
        .into_iter()
        .map(|identity| {
            let outcome = if identity.key == "foo" {
                FetchOutcome::FetchFailed
            } else {
                let resp = Response {
                    data: vec![payload("m4")],
                    additional: Additional { gamertag: "bar".to_owned() },
                };
                FetchOutcome::Record(record_from_response(resp, true).unwrap())
            };
            PollResult { identity, outcome }
        })
        .collect();
    let actions = reconcile(results);
    apply_updates(&mut roster, &actions.updates);
    assert_eq!(watermark_of(&roster, "foo"), Some("m1".to_owned()));
    assert_eq!(watermark_of(&roster, "bar"), Some("m4".to_owned()));
    assert_eq!(actions.emissions.len(), 1);
    assert_eq!(actions.emissions[0].identity_key, "bar");
}
