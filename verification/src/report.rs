//! Plain aggregations the notification text is built from: lobby totals and
//! averages, the rating change, the match duration guard.
//!
//! The fractional figures of the notification (kills per minute, accuracy)
//! are computed by the renderer outside the library from the exact integer
//! totals returned here.

use crate::match_response::Player;
use vstd::prelude::*;

verus! {

/// Damage dealt by a lobby: the sum over every participant.
pub open spec fn total_dealt(players: Seq<Player>) -> int
    decreases players.len(),
{
    if players.len() == 0 {
        0
    } else {
        total_dealt(players.drop_last()) + players.last().stats.core.damage.dealt
    }
}

/// Kills scored by a lobby: the sum over every participant.
pub open spec fn total_kills(players: Seq<Player>) -> int
    decreases players.len(),
{
    if players.len() == 0 {
        0
    } else {
        total_kills(players.drop_last()) + players.last().stats.core.summary.kills
    }
}

/// A sum of counters is never negative.
proof fn lemma_total_dealt_nonneg(players: Seq<Player>)
    ensures
        total_dealt(players) >= 0,
    decreases players.len(),
{
    if players.len() > 0 {
        lemma_total_dealt_nonneg(players.drop_last());
    }
}

/// A prefix never sums to more than the whole: every summand is a counter,
/// never negative.
proof fn lemma_total_dealt_take_le(players: Seq<Player>, i: int)
    requires
        0 <= i <= players.len(),
    ensures
        total_dealt(players.take(i)) <= total_dealt(players),
    decreases players.len() - i,
{
    if i == players.len() {
        assert(players.take(i) =~= players);
    } else {
        assert(players.take(i + 1).drop_last() =~= players.take(i));
        lemma_total_dealt_take_le(players, i + 1);
    }
}

/// A prefix never sums to more than the whole: every summand is a counter,
/// never negative.
proof fn lemma_total_kills_take_le(players: Seq<Player>, i: int)
    requires
        0 <= i <= players.len(),
    ensures
        total_kills(players.take(i)) <= total_kills(players),
    decreases players.len() - i,
{
    if i == players.len() {
        assert(players.take(i) =~= players);
    } else {
        assert(players.take(i + 1).drop_last() =~= players.take(i));
        lemma_total_kills_take_le(players, i + 1);
    }
}

/// Sum the damage dealt over a lobby; nothing when the total does not fit
/// the machine word.
pub fn damage_dealt_sum(players: &Vec<Player>) -> (r: Option<usize>)
    ensures
        total_dealt(players@) <= usize::MAX ==> r == Option::Some(total_dealt(players@) as usize),
        total_dealt(players@) > usize::MAX ==> r is None,
{
    let n = players.len();
    let mut total: usize = 0;
    let mut i: usize = 0;
    while i < n
        invariant
            i <= n,
            n == players@.len(),
            total == total_dealt(players@.take(i as int)),
        decreases n - i,
    {
        proof {
            assert(players@.take(i + 1).drop_last() =~= players@.take(i as int));
        }
        match total.checked_add(players[i].stats.core.damage.dealt) {
            Option::Some(t) => {
                total = t;
            },
            Option::None => {
                proof {
                    lemma_total_dealt_take_le(players@, i + 1);
                }
                return Option::None;
            },
        }
        i += 1;
    }
    proof {
        assert(players@.take(n as int) =~= players@);
    }
    Option::Some(total)
}

/// Sum the kills over a lobby; nothing when the total does not fit the
/// machine word.
pub fn kills_sum(players: &Vec<Player>) -> (r: Option<usize>)
    ensures
        total_kills(players@) <= usize::MAX ==> r == Option::Some(total_kills(players@) as usize),
        total_kills(players@) > usize::MAX ==> r is None,
{
    let n = players.len();
    let mut total: usize = 0;
    let mut i: usize = 0;
    while i < n
        invariant
            i <= n,
            n == players@.len(),
            total == total_kills(players@.take(i as int)),
        decreases n - i,
    {
        proof {
            assert(players@.take(i + 1).drop_last() =~= players@.take(i as int));
        }
        match total.checked_add(players[i].stats.core.summary.kills) {
            Option::Some(t) => {
                total = t;
            },
            Option::None => {
                proof {
                    lemma_total_kills_take_le(players@, i + 1);
                }
                return Option::None;
            },
        }
        i += 1;
    }
    proof {
        assert(players@.take(n as int) =~= players@);
    }
    Option::Some(total)
}

/// Average damage dealt over a lobby, rounded down; nothing for an empty
/// lobby or a total that does not fit the machine word.
pub fn average_damage_dealt(players: &Vec<Player>) -> (r: Option<usize>)
    ensures
        players@.len() == 0 ==> r is None,
        players@.len() > 0 && total_dealt(players@) <= usize::MAX ==> (r matches Option::Some(
            avg,
        ) && avg == total_dealt(players@) / players@.len() as int),
        total_dealt(players@) > usize::MAX ==> r is None,
{
    let n = players.len();
    if n == 0 {
        Option::None
    } else {
        match damage_dealt_sum(players) {
            Option::Some(total) => {
                proof {
                    lemma_total_dealt_nonneg(players@);
                }
                Option::Some(total / n)
            },
            Option::None => Option::None,
        }
    }
}

/// How the skill rating moved over a match: whether it rose, and by how
/// much. Exact for every pair of snapshot values, with no overflow.
pub fn csr_change(pre: usize, post: usize) -> (r: (bool, usize))
    ensures
        post >= pre ==> r == (true, (post - pre) as usize),
        post < pre ==> r == (false, (pre - post) as usize),
{
    if post >= pre {
        (true, post - pre)
    } else {
        (false, pre - post)
    }
}

/// The duration the per-minute figures divide by: a match reported with
/// zero seconds counts as one second, so the division is always defined.
pub fn effective_duration(seconds: usize) -> (r: usize)
    ensures
        seconds == 0 ==> r == 1,
        seconds > 0 ==> r == seconds,
{
    if seconds == 0 {
        1
    } else {
        seconds
    }
}

} // verus!
