use match_tracker::match_checker::{
    apply_updates, reconcile, FetchOutcome, PollResult, WatermarkUpdate,
};
use match_tracker::roster::Roster;

#[test]
fn register_stores_the_key_lowercase() {
    let mut roster = Roster::new();
    assert!(roster.register("FooBar"));
    let listed = roster.list_tracked();
    assert_eq!(listed.len(), 1);
    assert_eq!(listed[0].key, "foobar");
    assert_eq!(listed[0].last_seen_record_id, None);
    assert!(listed[0].enabled);
}

#[test]
fn register_existing_key_changes_nothing() {
    let mut roster = Roster::new();
    assert!(roster.register("foo"));
    roster.advance_watermark(&"foo".to_owned(), &"m1".to_owned());
    assert!(!roster.register("FOO"));
    let listed = roster.list_tracked();
    assert_eq!(listed.len(), 1);
    assert_eq!(listed[0].last_seen_record_id, Some("m1".to_owned()));
}

#[test]
fn advance_watermark_twice_is_idempotent() {
    let mut roster = Roster::new();
    roster.register("foo");
    let key = "foo".to_owned();
    let id = "m1".to_owned();
    roster.advance_watermark(&key, &id);
    roster.advance_watermark(&key, &id);
    let listed = roster.list_tracked();
    assert_eq!(listed.len(), 1);
    assert_eq!(listed[0].key, "foo");
    assert_eq!(listed[0].last_seen_record_id, Some("m1".to_owned()));
}

#[test]
fn advance_watermark_replaces_the_previous_watermark() {
    let mut roster = Roster::new();
    roster.register("foo");
    roster.advance_watermark(&"foo".to_owned(), &"m1".to_owned());
    roster.advance_watermark(&"foo".to_owned(), &"m2".to_owned());
    let listed = roster.list_tracked();
    assert_eq!(listed[0].last_seen_record_id, Some("m2".to_owned()));
}

#[test]
fn advance_watermark_for_an_unknown_key_inserts_disabled() {
    let mut roster = Roster::new();
    roster.advance_watermark(&"ghost".to_owned(), &"m9".to_owned());
    let listed = roster.list_tracked();
    assert_eq!(listed.len(), 1);
    assert_eq!(listed[0].key, "ghost");
    assert_eq!(listed[0].last_seen_record_id, Some("m9".to_owned()));
    assert!(!listed[0].enabled);
}

#[test]
fn toggle_flips_the_flag_and_reports_it() {
    let mut roster = Roster::new();
    roster.register("foo");
    assert_eq!(roster.toggle(&"foo".to_owned()), Some(false));
    assert_eq!(roster.toggle(&"foo".to_owned()), Some(true));
}

#[test]
fn toggle_unknown_key_reports_nothing() {
    let mut roster = Roster::new();
    assert_eq!(roster.toggle(&"nobody".to_owned()), None);
}

#[test]
fn apply_updates_persists_every_write_of_a_tick() {
    let mut roster = Roster::new();
    roster.register("aaa");
    roster.register("bbb");
    let updates = vec![
        WatermarkUpdate { key: "aaa".to_owned(), record_id: "m5".to_owned() },
        WatermarkUpdate { key: "bbb".to_owned(), record_id: "m6".to_owned() },
    ];
    apply_updates(&mut roster, &updates);
    let listed = roster.list_tracked();
    assert_eq!(listed.len(), 2);
    assert_eq!(listed[0].key, "aaa");
    assert_eq!(listed[0].last_seen_record_id, Some("m5".to_owned()));
    assert_eq!(listed[1].key, "bbb");
    assert_eq!(listed[1].last_seen_record_id, Some("m6".to_owned()));
}

#[test]
fn a_tick_without_records_owes_nothing() {
    let mut roster = Roster::new();
    roster.register("aaa");
    let results: Vec<PollResult> = roster
        .list_tracked()
        .iter()
        .map(|e| PollResult {
            identity: match_tracker::roster::Identity {
                key: e.key.clone(),
                last_seen_record_id: e.last_seen_record_id.clone(),
                enabled: e.enabled,
            },
            outcome: FetchOutcome::NoRecords,
        })
        .collect();
    let t = reconcile(results);
    assert!(t.updates.is_empty());
    assert!(t.emissions.is_empty());
}
