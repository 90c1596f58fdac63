use match_tracker::emoji::{emoji_table, name_to_emoji};
use match_tracker::match_checker::request::Request;
use match_tracker::match_response::{CoreStats, Damage, Player, Stats, Summary};
use match_tracker::report::{
    average_damage_dealt, csr_change, damage_dealt_sum, effective_duration, kills_sum,
};

fn lobby(figures: &[(usize, usize)]) -> Vec<Player> {
    figures
        .iter()
        .map(|&(kills, dealt)| Player {
            stats: Stats {
                core: CoreStats {
                    damage: Damage { dealt, taken: 0 },
                    summary: Summary { kills, deaths: 0, assists: 0 },
                },
            },
        })
        .collect()
}

#[test]
fn medal_with_spaces_finds_its_emoji() {
    assert_eq!(
        name_to_emoji("Killing Spree"),
        Some("<:KillingSpree:931631928476598302>")
    );
}

#[test]
fn medal_without_spaces_finds_its_emoji() {
    assert_eq!(name_to_emoji("Ninja"), Some("<:Ninja:931631929697136770>"));
}

#[test]
fn unknown_medal_has_no_emoji() {
    assert_eq!(name_to_emoji("Participation Trophy"), None);
}

#[test]
fn short_medal_name_does_not_match_a_longer_one() {
    // "Kill" is a prefix of several entries but `:Kill:` occurs in none.
    assert_eq!(name_to_emoji("Kill"), None);
}

#[test]
fn the_table_lists_every_guild_emoji_once() {
    let table = emoji_table();
    assert_eq!(table.len(), 59);
    let mut seen: Vec<&str> = Vec::new();
    for e in table {
        assert!(!seen.contains(&e));
        seen.push(e);
    }
}

#[test]
fn lobby_totals_are_exact() {
    let players = lobby(&[(20, 2500), (10, 1500), (5, 500)]);
    assert_eq!(damage_dealt_sum(&players), Some(4500));
    assert_eq!(kills_sum(&players), Some(35));
}

#[test]
fn lobby_average_rounds_down() {
    let players = lobby(&[(1, 100), (2, 101)]);
    assert_eq!(average_damage_dealt(&players), Some(100));
}

#[test]
fn empty_lobby_has_no_average() {
    let players = lobby(&[]);
    assert_eq!(average_damage_dealt(&players), None);
}

#[test]
fn rating_change_reports_direction_and_size() {
    assert_eq!(csr_change(1400, 1412), (true, 12));
    assert_eq!(csr_change(900, 888), (false, 12));
    assert_eq!(csr_change(1000, 1000), (true, 0));
}

#[test]
fn zero_length_match_counts_as_one_second() {
    assert_eq!(effective_duration(0), 1);
    assert_eq!(effective_duration(754), 754);
}

#[test]
fn poll_request_asks_for_the_single_latest_match() {
    let r = Request::latest_for("foo");
    assert_eq!(r.gamertag, "foo");
    assert_eq!(r.limit.count, 1);
}
