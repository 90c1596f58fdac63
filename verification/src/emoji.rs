//! Mapping medal names to the guild's custom emoji.
//!
//! Each guild emoji is written `<:Name:id>` where `Name` is the medal name
//! with its whitespace removed. A medal is looked up by searching the table
//! for the first entry containing `:Name:`; a medal without an emoji is
//! simply not decorated.

use vstd::prelude::*;
use vstd::string::StrSliceExecFns;

verus! {

/// Whether `char::is_whitespace` holds of a character.
pub uninterp spec fn is_white(c: char) -> bool;

/// Relies on `char::is_whitespace`: the result depends on the character
/// alone.
#[verifier::external_body]
fn whitespace(c: char) -> (b: bool)
    ensures
        b == is_white(c),
{
    c.is_whitespace()
}

/// A name with every whitespace character removed, as medal names are
/// written inside the emoji strings.
pub open spec fn stripped(name: Seq<char>) -> Seq<char> {
    name.filter(|c: char| !is_white(c))
}

/// The text a medal's emoji must contain: the stripped name between colons.
pub open spec fn marker_of(name: Seq<char>) -> Seq<char> {
    seq![':'] + stripped(name) + seq![':']
}

/// Whether `needle` occurs in `hay` starting at position `at`.
pub open spec fn occurs_at(hay: Seq<char>, needle: Seq<char>, at: int) -> bool {
    0 <= at && at + needle.len() <= hay.len() && hay.subrange(at, at + needle.len()) == needle
}

/// Whether `needle` occurs somewhere in `hay`.
pub open spec fn has_substring(hay: Seq<char>, needle: Seq<char>) -> bool {
    exists|at: int| occurs_at(hay, needle, at)
}

/// Remove every whitespace character of `name`.
fn strip_whitespace(name: &str) -> (v: Vec<char>)
    ensures
        v@ == stripped(name@),
{
    let n = name.unicode_len();
    let mut v: Vec<char> = Vec::new();
    let mut i: usize = 0;
    proof {
        reveal(Seq::filter);
        assert(name@.take(0) =~= Seq::<char>::empty());
    }
    while i < n
        invariant
            i <= n,
            n == name@.len(),
            v@ == stripped(name@.take(i as int)),
        decreases n - i,
    {
        let c = name.get_char(i);
        proof {
            reveal(Seq::filter);
            assert(name@.take(i + 1).drop_last() =~= name@.take(i as int));
            assert(name@.take(i + 1).last() == name@[i as int]);
        }
        if !whitespace(c) {
            v.push(c);
        }
        i += 1;
    }
    proof {
        assert(name@.take(n as int) =~= name@);
    }
    v
}

/// The `:name:` text to search for: the stripped name between colons.
fn build_marker(name: &str) -> (v: Vec<char>)
    ensures
        v@ == marker_of(name@),
{
    let mut v: Vec<char> = Vec::new();
    v.push(':');
    let mut body = strip_whitespace(name);
    v.append(&mut body);
    v.push(':');
    proof {
        assert(v@ =~= marker_of(name@));
    }
    v
}

/// Whether `needle` occurs in `hay`, by direct search.
fn contains_chars(hay: &str, needle: &Vec<char>) -> (b: bool)
    ensures
        b == has_substring(hay@, needle@),
{
    let n = hay.unicode_len();
    let m = needle.len();
    if m > n {
        proof {
            assert(forall|at: int| !occurs_at(hay@, needle@, at));
        }
        return false;
    }
    if m == 0 {
        proof {
            assert(hay@.subrange(0, 0) =~= needle@);
            assert(occurs_at(hay@, needle@, 0));
        }
        return true;
    }
    let mut at: usize = 0;
    while at <= n - m
        invariant
            0 < m <= n,
            n == hay@.len(),
            m == needle@.len(),
            at <= n - m + 1,
            forall|a: int| 0 <= a < at ==> !occurs_at(hay@, needle@, a),
        decreases n - m + 1 - at,
    {
        let mut j: usize = 0;
        let mut mismatch = false;
        while j < m
            invariant
                0 < m <= n,
                n == hay@.len(),
                m == needle@.len(),
                at <= n - m,
                j <= m,
                !mismatch ==> forall|k: int| 0 <= k < j ==> hay@[at + k] == needle@[k],
                mismatch ==> !occurs_at(hay@, needle@, at as int),
            decreases m - j,
        {
            if !mismatch {
                let hc = hay.get_char(at + j);
                if hc != needle[j] {
                    proof {
                        let sub = hay@.subrange(at as int, at + m);
                        assert(sub[j as int] != needle@[j as int]);
                        assert(sub != needle@);
                    }
                    mismatch = true;
                }
            }
            j += 1;
        }
        if !mismatch {
            proof {
                assert(hay@.subrange(at as int, at + m) =~= needle@);
                assert(occurs_at(hay@, needle@, at as int));
            }
            return true;
        }
        at += 1;
    }
    proof {
        assert(forall|a: int| at <= a ==> !occurs_at(hay@, needle@, a));
    }
    false
}

/// The guild's medal emoji: one `<:Name:id>` entry per medal the guild has
/// art for.
pub open spec fn emoji_seq() -> Seq<Seq<char>> {
    seq![
        "<:AchillesSpine:932071031106072607>"@,
        "<:AlwaysRotating:939744585675067393>"@,
        "<:BackSmack:932071030825058384>"@,
        "<:BankShot:938209152675774475>"@,
        "<:Bodyguard:938209152726085712>"@,
        "<:Bomber:938136842274996225>"@,
        "<:Boogeyman:931631927486734417>"@,
        "<:BoomBlock:932071031072518144>"@,
        "<:Boxer:932071030766333982>"@,
        "<:ClockStop:940066017982427146>"@,
        "<:ClusterLuck:940090243145682954>"@,
        "<:Demon:931631928120066088>"@,
        "<:DoubleKill:931631928023597066>"@,
        "<:Extermination:931631929239949343>"@,
        "<:Fastball:932071030950867057>"@,
        "<:FlagJoust:939786696910860341>"@,
        "<:FromtheGrave:932071030795677717>"@,
        "<:Fumble:932071030762119168>"@,
        "<:GoalLineStand:939786660990836816>"@,
        "<:GrappleJack:931631927788728342>"@,
        "<:Grenadier:938136887430893668>"@,
        "<:GrimReaper:931631928136826900>"@,
        "<:GuardianAngel:932071031152214016>"@,
        "<:HailMary:938209152105320510>"@,
        "<:HoldThis:938209152327647272>"@,
        "<:KillingFrenzy:931631928497541171>"@,
        "<:KillingSpree:931631928476598302>"@,
        "<:Killionaire:931631929311244370>"@,
        "<:Killjoy:931631928585642055>"@,
        "<:Killtastrophe:931631929667780608>"@,
        "<:Killtrocity:931631929642590228>"@,
        "<:LastShot:932071030862790706>"@,
        "<:Marksman:932071031047340073>"@,
        "<:MindtheGap:938426546157412422>"@,
        "<:NadeShot:939786758177058837>"@,
        "<:Nightmare:931631929067986944>"@,
        "<:Ninja:931631929697136770>"@,
        "<:NoScope:931631929139277874>"@,
        "<:OfftheRack:938136887229562971>"@,
        "<:Overkill:931631929617448970>"@,
        "<:Pancake:940376937065480263>"@,
        "<:Perfect:932071031181570078>"@,
        "<:Perfection:931631929646796870>"@,
        "<:Quigley:931631929663569980>"@,
        "<:Rampage:931631929420296202>"@,
        "<:Reversal:932071031101853736>"@,
        "<:RunningRiot:931631929621622875>"@,
        "<:Scattergunner:938136887288287303>"@,
        "<:ShotCaller:938813060506849390>"@,
        "<:SneakKing:939503925302820935>"@,
        "<:Snipe:931631929575473192>"@,
        "<:Steaktacular:938136887611228240>"@,
        "<:Stick:937788737583202406>"@,
        "<:StoppedShort:938677766587572274>"@,
        "<:StraightBalling:938426609864679424>"@,
        "<:TripleKill:931631929185411124>"@,
        "<:Whiplash:938813020107329606>"@,
        "<:Wingman:932071030732767283>"@,
        "<:YardSale:932071031068307456>"@,
    ]
}

/// The guild's medal emoji as runtime values, in table order.
pub fn emoji_table() -> (t: Vec<&'static str>)
    ensures
        t.deep_view() == emoji_seq(),
{
    let t: Vec<&'static str> = vec![
        "<:AchillesSpine:932071031106072607>",
        "<:AlwaysRotating:939744585675067393>",
        "<:BackSmack:932071030825058384>",
        "<:BankShot:938209152675774475>",
        "<:Bodyguard:938209152726085712>",
        "<:Bomber:938136842274996225>",
        "<:Boogeyman:931631927486734417>",
        "<:BoomBlock:932071031072518144>",
        "<:Boxer:932071030766333982>",
        "<:ClockStop:940066017982427146>",
        "<:ClusterLuck:940090243145682954>",
        "<:Demon:931631928120066088>",
        "<:DoubleKill:931631928023597066>",
        "<:Extermination:931631929239949343>",
        "<:Fastball:932071030950867057>",
        "<:FlagJoust:939786696910860341>",
        "<:FromtheGrave:932071030795677717>",
        "<:Fumble:932071030762119168>",
        "<:GoalLineStand:939786660990836816>",
        "<:GrappleJack:931631927788728342>",
        "<:Grenadier:938136887430893668>",
        "<:GrimReaper:931631928136826900>",
        "<:GuardianAngel:932071031152214016>",
        "<:HailMary:938209152105320510>",
        "<:HoldThis:938209152327647272>",
        "<:KillingFrenzy:931631928497541171>",
        "<:KillingSpree:931631928476598302>",
        "<:Killionaire:931631929311244370>",
        "<:Killjoy:931631928585642055>",
        "<:Killtastrophe:931631929667780608>",
        "<:Killtrocity:931631929642590228>",
        "<:LastShot:932071030862790706>",
        "<:Marksman:932071031047340073>",
        "<:MindtheGap:938426546157412422>",
        "<:NadeShot:939786758177058837>",
        "<:Nightmare:931631929067986944>",
        "<:Ninja:931631929697136770>",
        "<:NoScope:931631929139277874>",
        "<:OfftheRack:938136887229562971>",
        "<:Overkill:931631929617448970>",
        "<:Pancake:940376937065480263>",
        "<:Perfect:932071031181570078>",
        "<:Perfection:931631929646796870>",
        "<:Quigley:931631929663569980>",
        "<:Rampage:931631929420296202>",
        "<:Reversal:932071031101853736>",
        "<:RunningRiot:931631929621622875>",
        "<:Scattergunner:938136887288287303>",
        "<:ShotCaller:938813060506849390>",
        "<:SneakKing:939503925302820935>",
        "<:Snipe:931631929575473192>",
        "<:Steaktacular:938136887611228240>",
        "<:Stick:937788737583202406>",
        "<:StoppedShort:938677766587572274>",
        "<:StraightBalling:938426609864679424>",
        "<:TripleKill:931631929185411124>",
        "<:Whiplash:938813020107329606>",
        "<:Wingman:932071030732767283>",
        "<:YardSale:932071031068307456>",
    ];
    proof {
        assert(t.deep_view() =~= emoji_seq());
    }
    t
}

/// Look a medal's emoji up: the first table entry containing `:Name:` for
/// the whitespace-stripped medal name, or none when no entry does.
pub fn name_to_emoji(name: &str) -> (r: Option<&'static str>)
    ensures
        match r {
            Option::Some(e) => exists|i: int|
                0 <= i < emoji_seq().len() && e@ == emoji_seq()[i] && has_substring(
                    emoji_seq()[i],
                    marker_of(name@),
                ) && (forall|j: int|
                    0 <= j < i ==> !has_substring(emoji_seq()[j], marker_of(name@))),
            Option::None => forall|j: int|
                0 <= j < emoji_seq().len() ==> !has_substring(emoji_seq()[j], marker_of(name@)),
        },
{
    let marker = build_marker(name);
    let table = emoji_table();
    let n = table.len();
    let mut i: usize = 0;
    while i < n
        invariant
            i <= n,
            n == emoji_seq().len(),
            table.deep_view() == emoji_seq(),
            n == table@.len(),
            marker@ == marker_of(name@),
            forall|j: int| 0 <= j < i ==> !has_substring(emoji_seq()[j], marker_of(name@)),
        decreases n - i,
    {
        let entry = table[i];
        proof {
            assert(entry@ == emoji_seq()[i as int]);
        }
        if contains_chars(entry, &marker) {
            return Option::Some(entry);
        }
        i += 1;
    }
    Option::None
}

} // verus!
