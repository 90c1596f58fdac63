//! The roster model: the engine's view of the store of tracked identities.
//!
//! The store persists, per identity, a stable key (held lowercase), the
//! last-seen record identifier (the watermark, absent until the first
//! observation) and an enabled flag. This module states exactly what each
//! store operation does to that state; the relational backend outside the
//! library implements the same operations row by row.

use vstd::prelude::*;

verus! {

/// What `str::to_lowercase` returns for a given character sequence.
pub uninterp spec fn lower_of(s: Seq<char>) -> Seq<char>;

/// Relies on `str::to_lowercase`: the result depends on the characters alone.
#[verifier::external_body]
fn lowercase(s: &str) -> (r: String)
    ensures
        r@ == lower_of(s@),
{
    s.to_lowercase()
}

/// One tracked identity as the roster store holds it.
pub struct Identity {
    /// Stable key of the identity, held lowercase.
    pub key: String,
    /// The watermark: the record id seen by the latest successful fetch,
    /// absent until the first observation.
    pub last_seen_record_id: Option<String>,
    /// Whether detected changes for this identity are emitted to the sink.
    pub enabled: bool,
}

/// Mathematical image of an `Identity`.
pub struct IdentityView {
    pub key: Seq<char>,
    pub last_seen_record_id: Option<Seq<char>>,
    pub enabled: bool,
}

impl View for Identity {
    type V = IdentityView;

    open spec fn view(&self) -> IdentityView {
        IdentityView {
            key: self.key@,
            last_seen_record_id: self.last_seen_record_id.deep_view(),
            enabled: self.enabled,
        }
    }
}

/// Whether some entry of `roster` carries `key`.
pub open spec fn contains_key(roster: Seq<IdentityView>, key: Seq<char>) -> bool {
    exists|i: int| 0 <= i < roster.len() && roster[i].key == key
}

/// What advancing the watermark does to the roster state: every entry that
/// carries `key` — at most one in a well-formed roster — gets `id` as its
/// watermark; an unknown key is inserted, not yet enabled for notices.
pub open spec fn spec_advance(
    roster: Seq<IdentityView>,
    key: Seq<char>,
    id: Seq<char>,
) -> Seq<IdentityView> {
    if contains_key(roster, key) {
        Seq::new(
            roster.len(),
            |i: int|
                if roster[i].key == key {
                    IdentityView { last_seen_record_id: Option::Some(id), ..roster[i] }
                } else {
                    roster[i]
                },
        )
    } else {
        roster.push(
            IdentityView { key, last_seen_record_id: Option::Some(id), enabled: false },
        )
    }
}

/// What registering does to the roster state: a known key changes nothing,
/// an unknown key is appended with no watermark and notices enabled.
pub open spec fn spec_register(roster: Seq<IdentityView>, key: Seq<char>) -> Seq<IdentityView> {
    if contains_key(roster, key) {
        roster
    } else {
        roster.push(IdentityView { key, last_seen_record_id: Option::None, enabled: true })
    }
}

/// What toggling does to the roster state: every entry that carries `key`
/// has its enabled flag flipped; an unknown key changes nothing.
pub open spec fn spec_toggle(roster: Seq<IdentityView>, key: Seq<char>) -> Seq<IdentityView> {
    Seq::new(
        roster.len(),
        |i: int|
            if roster[i].key == key {
                IdentityView { enabled: !roster[i].enabled, ..roster[i] }
            } else {
                roster[i]
            },
    )
}

/// The in-memory roster store: the entries, keys unique.
pub struct Roster {
    entries: Vec<Identity>,
}

impl View for Roster {
    type V = Seq<IdentityView>;

    closed spec fn view(&self) -> Seq<IdentityView> {
        self.entries@.map_values(|e: Identity| e@)
    }
}

impl Roster {
    /// No two entries carry the same key; every store operation keeps this.
    pub open spec fn well_formed(&self) -> bool {
        forall|i: int, j: int|
            0 <= i < self@.len() && 0 <= j < self@.len() && i != j ==> self@[i].key != self@[j].key
    }

    /// An empty roster.
    pub fn new() -> (r: Roster)
        ensures
            r@ == Seq::<IdentityView>::empty(),
            r.well_formed(),
    {
        let r = Roster { entries: Vec::new() };
        proof {
            assert(r@ =~= Seq::<IdentityView>::empty());
        }
        r
    }

    /// Read-all of the tracked identities, as the poll cycle does at the
    /// start of every tick.
    pub fn list_tracked(&self) -> (r: &Vec<Identity>)
        ensures
            r@.map_values(|e: Identity| e@) == self@,
    {
        &self.entries
    }

    /// Persist `record_id` as the watermark of `key`, upsert-by-key: calling
    /// this twice with the same arguments leaves the same state as calling
    /// it once.
    pub fn advance_watermark(&mut self, key: &String, record_id: &String)
        requires
            old(self).well_formed(),
        ensures
            final(self)@ == spec_advance(old(self)@, key@, record_id@),
            final(self).well_formed(),
    {
        let n = self.entries.len();
        let mut i: usize = 0;
        while i < n
            invariant
                old(self).well_formed(),
                i <= n,
                n == self.entries.len(),
                *self == *old(self),
                forall|j: int| 0 <= j < i ==> self@[j].key != key@,
            decreases n - i,
        {
            if self.entries[i].key == *key {
                proof {
                    assert(old(self)@[i as int].key == key@);
                    assert(contains_key(old(self)@, key@));
                }
                self.entries[i].last_seen_record_id = Option::Some(record_id.clone());
                proof {
                    assert(self@ =~= spec_advance(old(self)@, key@, record_id@));
                }
                return;
            }
            i += 1;
        }
        self.entries.push(
            Identity {
                key: key.clone(),
                last_seen_record_id: Option::Some(record_id.clone()),
                enabled: false,
            },
        );
        proof {
            assert(!contains_key(old(self)@, key@));
            assert(self@ =~= spec_advance(old(self)@, key@, record_id@));
        }
    }

    /// Register a new identity under the lowercase form of `gamertag`, with
    /// notices enabled and no watermark yet. Returns whether the key was new;
    /// a key already registered is left untouched.
    pub fn register(&mut self, gamertag: &str) -> (fresh: bool)
        requires
            old(self).well_formed(),
        ensures
            final(self)@ == spec_register(old(self)@, lower_of(gamertag@)),
            final(self).well_formed(),
            fresh == !contains_key(old(self)@, lower_of(gamertag@)),
    {
        let key = lowercase(gamertag);
        let n = self.entries.len();
        let mut i: usize = 0;
        while i < n
            invariant
                old(self).well_formed(),
                i <= n,
                n == self.entries.len(),
                *self == *old(self),
                key@ == lower_of(gamertag@),
                forall|j: int| 0 <= j < i ==> self@[j].key != key@,
            decreases n - i,
        {
            if self.entries[i].key == key {
                proof {
                    assert(old(self)@[i as int].key == lower_of(gamertag@));
                    assert(contains_key(old(self)@, lower_of(gamertag@)));
                }
                return false;
            }
            i += 1;
        }
        self.entries.push(
            Identity { key, last_seen_record_id: Option::None, enabled: true },
        );
        proof {
            assert(!contains_key(old(self)@, lower_of(gamertag@)));
            assert(self@ =~= spec_register(old(self)@, lower_of(gamertag@)));
        }
        true
    }

    /// Flip whether `key`'s detected changes are emitted; returns the new
    /// flag, or `None` when the key is not tracked.
    pub fn toggle(&mut self, key: &String) -> (r: Option<bool>)
        requires
            old(self).well_formed(),
        ensures
            final(self)@ == spec_toggle(old(self)@, key@),
            final(self).well_formed(),
            r matches Option::Some(b) ==> contains_key(old(self)@, key@),
            r matches Option::None ==> !contains_key(old(self)@, key@),
            forall|i: int|
                0 <= i < old(self)@.len() && old(self)@[i].key == key@
                    ==> r == Option::Some(!old(self)@[i].enabled),
    {
        let n = self.entries.len();
        let mut i: usize = 0;
        while i < n
            invariant
                old(self).well_formed(),
                i <= n,
                n == self.entries.len(),
                *self == *old(self),
                forall|j: int| 0 <= j < i ==> self@[j].key != key@,
            decreases n - i,
        {
            if self.entries[i].key == *key {
                proof {
                    assert(old(self)@[i as int].key == key@);
                    assert(contains_key(old(self)@, key@));
                }
                let flipped = !self.entries[i].enabled;
                self.entries[i].enabled = flipped;
                proof {
                    assert(self@ =~= spec_toggle(old(self)@, key@));
                }
                return Option::Some(flipped);
            }
            i += 1;
        }
        proof {
            assert(self@ =~= spec_toggle(old(self)@, key@));
        }
        Option::None
    }
}

/// Law: advancing the same watermark twice leaves the state of advancing it
/// once — the store write is idempotent, so a repeated persistence attempt
/// after a partial failure has no observable extra effect.
pub proof fn lemma_advance_idempotent(roster: Seq<IdentityView>, key: Seq<char>, id: Seq<char>)
    ensures
        spec_advance(spec_advance(roster, key, id), key, id) == spec_advance(roster, key, id),
{
    let once = spec_advance(roster, key, id);
    if contains_key(roster, key) {
        let w = choose|i: int| 0 <= i < roster.len() && roster[i].key == key;
        assert(once[w].key == key);
        assert(contains_key(once, key));
        assert(spec_advance(once, key, id) =~= once);
    } else {
        assert(once[roster.len() as int].key == key);
        assert(contains_key(once, key));
        assert(spec_advance(once, key, id) =~= once);
    }
}

} // verus!
