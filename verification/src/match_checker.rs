//! The poll-diff engine: change detection over fetched activity records.
//!
//! Each tick, every tracked identity's most recent activity record is fetched
//! and compared against the watermark stored for that identity. The change
//! detector is a pure function: it never talks to the store or the upstream,
//! it only decides. The surrounding loop (timer, fetches, persistence, sink)
//! lives outside the library and acts on the decisions returned from here.

pub mod request;
pub mod response;

use crate::roster::{spec_advance, Identity, IdentityView, Roster};
use self::response::Response;
use vstd::prelude::*;

verus! {

/// The most recent activity record fetched for one identity, reduced to what
/// the engine decides on plus the payload the sink renders.
///
/// `eligible_for_notice` is computed by the upstream adapter (for this source:
/// whether the match was ranked); the change detector only reads it.
pub struct ActivityRecord {
    pub record_id: String,
    pub identity_key: String,
    pub eligible_for_notice: bool,
    pub payload: response::Data,
}

/// What the change detector decided for one identity in one tick.
pub struct Decision {
    /// `Some(id)`: persist `id` as the identity's new watermark.
    pub update: Option<String>,
    /// `Some(record)`: hand the record to the notification sink.
    pub emit: Option<ActivityRecord>,
}

/// The watermark the change detector writes for a fetch outcome: the fetched
/// record's id exactly when a record came back and its id differs from the
/// stored watermark.
pub open spec fn spec_update(
    previous: Option<Seq<char>>,
    fetched: Option<ActivityRecord>,
) -> Option<Seq<char>> {
    match fetched {
        Option::None => Option::None,
        Option::Some(r) => {
            if previous matches Option::Some(p) && p == r.record_id@ {
                Option::None
            } else {
                Option::Some(r.record_id@)
            }
        },
    }
}

/// The record the change detector emits for a fetch outcome: the fetched
/// record exactly when it is new (id differs from the stored watermark) and
/// eligible for a notice.
pub open spec fn spec_emit(
    previous: Option<Seq<char>>,
    fetched: Option<ActivityRecord>,
) -> Option<ActivityRecord> {
    match fetched {
        Option::None => Option::None,
        Option::Some(r) => {
            if !(previous matches Option::Some(p) && p == r.record_id@)
                && r.eligible_for_notice {
                Option::Some(r)
            } else {
                Option::None
            }
        },
    }
}

/// The change detector: given the watermark stored before this tick and the
/// record fetched this tick, decide whether the watermark advances and
/// whether the record goes to the sink.
///
/// An absent record or an unchanged record id decides nothing; a new record
/// id always advances the watermark — also when the record is not eligible,
/// so the same ineligible record is never re-evaluated forever — and is
/// emitted exactly when eligible.
pub fn evaluate(previous: &Option<String>, fetched: Option<ActivityRecord>) -> (d: Decision)
    ensures
        d.update.deep_view() == spec_update(previous.deep_view(), fetched),
        d.emit == spec_emit(previous.deep_view(), fetched),
{
    match fetched {
        Option::None => Decision { update: Option::None, emit: Option::None },
        Option::Some(r) => {
            let unchanged = match previous {
                Option::Some(p) => *p == r.record_id,
                Option::None => false,
            };
            if unchanged {
                Decision { update: Option::None, emit: Option::None }
            } else {
                let id = r.record_id.clone();
                if r.eligible_for_notice {
                    Decision { update: Option::Some(id), emit: Option::Some(r) }
                } else {
                    Decision { update: Option::Some(id), emit: Option::None }
                }
            }
        },
    }
}

/// How one identity's fetch ended this tick.
pub enum FetchOutcome {
    /// The upstream returned its most recent record for the identity.
    Record(ActivityRecord),
    /// The upstream answered with an empty result set.
    NoRecords,
    /// Transport failure, bad status or a malformed payload: this identity
    /// is skipped for the tick and retried on the next one.
    FetchFailed,
}

/// One identity's fetch outcome for one tick, as handed to reconciliation.
pub struct PollResult {
    pub identity: Identity,
    pub outcome: FetchOutcome,
}

/// One watermark write owed to the store.
pub struct WatermarkUpdate {
    pub key: String,
    pub record_id: String,
}

/// Mathematical image of a `WatermarkUpdate`.
pub struct WatermarkUpdateView {
    pub key: Seq<char>,
    pub record_id: Seq<char>,
}

impl View for WatermarkUpdate {
    type V = WatermarkUpdateView;

    open spec fn view(&self) -> WatermarkUpdateView {
        WatermarkUpdateView { key: self.key@, record_id: self.record_id@ }
    }
}

impl DeepView for WatermarkUpdate {
    type V = WatermarkUpdateView;

    open spec fn deep_view(&self) -> WatermarkUpdateView {
        self@
    }
}

/// Everything one tick owes the outside: the watermark writes to persist and
/// the records to hand to the sink, in the order the results were processed.
pub struct TickActions {
    pub updates: Vec<WatermarkUpdate>,
    pub emissions: Vec<ActivityRecord>,
}

/// The record a fetch outcome carries, if any; a failed fetch carries none
/// and so can never decide anything.
pub open spec fn fetched_record(o: FetchOutcome) -> Option<ActivityRecord> {
    match o {
        FetchOutcome::Record(r) => Option::Some(r),
        FetchOutcome::NoRecords => Option::None,
        FetchOutcome::FetchFailed => Option::None,
    }
}

/// The watermark write one poll result owes: the fetched record's id exactly
/// when a record came back and its id differs from the stored watermark —
/// whether or not the identity is enabled.
pub open spec fn result_update(p: PollResult) -> Option<Seq<char>> {
    spec_update(p.identity@.last_seen_record_id, fetched_record(p.outcome))
}

/// The emission one poll result owes: the fetched record exactly when it is
/// new, eligible for a notice, and the identity is enabled. Enabled and
/// eligible are independent gates; neither blocks the watermark write.
pub open spec fn result_emit(p: PollResult) -> Option<ActivityRecord> {
    if p.identity@.enabled {
        spec_emit(p.identity@.last_seen_record_id, fetched_record(p.outcome))
    } else {
        Option::None
    }
}

/// The watermark writes a whole tick owes: one per result that decided an
/// update, in result order.
pub open spec fn planned_updates(results: Seq<PollResult>) -> Seq<WatermarkUpdateView>
    decreases results.len(),
{
    if results.len() == 0 {
        Seq::empty()
    } else {
        let head: Seq<WatermarkUpdateView> = match result_update(results.first()) {
            Option::Some(id) => seq![
                WatermarkUpdateView { key: results.first().identity@.key, record_id: id },
            ],
            Option::None => Seq::empty(),
        };
        head + planned_updates(results.drop_first())
    }
}

/// The emissions a whole tick owes: one per result that decided an emission,
/// in result order.
pub open spec fn planned_emissions(results: Seq<PollResult>) -> Seq<ActivityRecord>
    decreases results.len(),
{
    if results.len() == 0 {
        Seq::empty()
    } else {
        let head: Seq<ActivityRecord> = match result_emit(results.first()) {
            Option::Some(r) => seq![r],
            Option::None => Seq::empty(),
        };
        head + planned_emissions(results.drop_first())
    }
}

/// The reconciling phase of one tick: run the change detector over every
/// identity's fetch outcome and collect exactly the watermark writes and
/// emissions owed. Each result is decided on its own: a failed fetch or an
/// absent record contributes nothing and blocks nothing else.
pub fn reconcile(results: Vec<PollResult>) -> (t: TickActions)
    ensures
        t.updates.deep_view() == planned_updates(results@),
        t.emissions@ == planned_emissions(results@),
{
    let ghost all = results@;
    let mut queue = results;
    let mut updates: Vec<WatermarkUpdate> = Vec::new();
    let mut emissions: Vec<ActivityRecord> = Vec::new();
    proof {
        assert(updates.deep_view() + planned_updates(queue@) =~= planned_updates(all));
        assert(emissions@ + planned_emissions(queue@) =~= planned_emissions(all));
    }
    while queue.len() > 0
        invariant
            updates.deep_view() + planned_updates(queue@) == planned_updates(all),
            emissions@ + planned_emissions(queue@) == planned_emissions(all),
        decreases queue.len(),
    {
        let ghost q0 = queue@;
        let ghost u0 = updates.deep_view();
        let ghost e0 = emissions@;
        let p = queue.remove(0);
        proof {
            assert(p == q0.first());
            assert(queue@ =~= q0.drop_first());
        }
        let PollResult { identity, outcome } = p;
        let fetched = match outcome {
            FetchOutcome::Record(r) => Option::Some(r),
            FetchOutcome::NoRecords => Option::None,
            FetchOutcome::FetchFailed => Option::None,
        };
        proof {
            assert(fetched == fetched_record(q0.first().outcome));
        }
        let d = evaluate(&identity.last_seen_record_id, fetched);
        proof {
            assert(d.update.deep_view() == result_update(q0.first()));
        }
        match d.update {
            Option::Some(id) => {
                let w = WatermarkUpdate { key: identity.key.clone(), record_id: id };
                let ghost wv = w@;
                updates.push(w);
                proof {
                    assert(result_update(q0.first()) == Option::Some(wv.record_id));
                    assert(wv.key == q0.first().identity@.key);
                    assert(updates.deep_view() =~= u0.push(wv));
                }
            },
            Option::None => {},
        }
        if identity.enabled {
            match d.emit {
                Option::Some(r) => {
                    let ghost rv = r;
                    emissions.push(r);
                    proof {
                        assert(result_emit(q0.first()) == Option::Some(rv));
                        assert(emissions@ =~= e0.push(rv));
                    }
                },
                Option::None => {},
            }
        } else {
            proof {
                assert(result_emit(q0.first()) == Option::<ActivityRecord>::None);
            }
        }
        proof {
            assert(updates.deep_view() + planned_updates(queue@) =~= planned_updates(all));
            assert(emissions@ + planned_emissions(queue@) =~= planned_emissions(all));
        }
    }
    proof {
        assert(updates.deep_view() =~= planned_updates(all));
        assert(emissions@ =~= planned_emissions(all));
    }
    TickActions { updates, emissions }
}

/// Reduce one upstream reply to the record the change detector decides on:
/// the single most recent match of the reply, or nothing when the upstream
/// returned an empty result set. Whether the record is eligible for a notice
/// (for this source: whether the match was ranked) is computed by the
/// transport adapter and only carried through here.
pub fn record_from_response(resp: Response, eligible: bool) -> (r: Option<ActivityRecord>)
    ensures
        resp.data@.len() == 0 ==> r is None,
        resp.data@.len() > 0 ==> (r matches Option::Some(rec) && rec.payload == resp.data@[0]
            && rec.record_id@ == resp.data@[0].id@
            && rec.identity_key@ == resp.additional.gamertag@
            && rec.eligible_for_notice == eligible),
{
    let Response { mut data, additional } = resp;
    if data.len() == 0 {
        Option::None
    } else {
        let first = data.remove(0);
        let record_id = first.id.clone();
        Option::Some(
            ActivityRecord {
                record_id,
                identity_key: additional.gamertag,
                eligible_for_notice: eligible,
                payload: first,
            },
        )
    }
}

/// The roster state after every watermark write of a tick has been
/// persisted, in order.
pub open spec fn spec_apply(
    roster: Seq<IdentityView>,
    updates: Seq<WatermarkUpdateView>,
) -> Seq<IdentityView>
    decreases updates.len(),
{
    if updates.len() == 0 {
        roster
    } else {
        spec_advance(
            spec_apply(roster, updates.drop_last()),
            updates.last().key,
            updates.last().record_id,
        )
    }
}

/// Persist every watermark write of a tick against the roster store, in
/// order. A tick built from a listing of a well-formed roster owes at most
/// one write per identity, so no write here shadows another.
pub fn apply_updates(roster: &mut Roster, updates: &Vec<WatermarkUpdate>)
    requires
        old(roster).well_formed(),
    ensures
        final(roster)@ == spec_apply(old(roster)@, updates.deep_view()),
        final(roster).well_formed(),
{
    let mut i: usize = 0;
    while i < updates.len()
        invariant
            roster.well_formed(),
            roster@ == spec_apply(old(roster)@, updates.deep_view().take(i as int)),
            i <= updates.len(),
        decreases updates.len() - i,
    {
        roster.advance_watermark(&updates[i].key, &updates[i].record_id);
        proof {
            let uv = updates.deep_view();
            assert(uv.take(i + 1 as int).drop_last() =~= uv.take(i as int));
            assert(uv.take(i + 1 as int).last() == updates[i as int]@);
        }
        i += 1;
    }
    proof {
        assert(updates.deep_view().take(updates.deep_view().len() as int) =~= updates.deep_view());
    }
}

/// Law: a record whose id equals the stored watermark decides nothing — no
/// watermark write, no emission — whatever its eligibility.
pub proof fn lemma_unchanged_record_decides_nothing(previous: Option<Seq<char>>, r: ActivityRecord)
    requires
        previous == Option::Some(r.record_id@),
    ensures
        spec_update(previous, Option::Some(r)) is None,
        spec_emit(previous, Option::Some(r)) is None,
{
}

/// Law: a record whose id differs from the stored watermark always advances
/// the watermark to that id, and is emitted exactly when it is eligible for
/// a notice.
pub proof fn lemma_new_record_always_updates(previous: Option<Seq<char>>, r: ActivityRecord)
    requires
        !(previous matches Option::Some(p) && p == r.record_id@),
    ensures
        spec_update(previous, Option::Some(r)) == Option::Some(r.record_id@),
        spec_emit(previous, Option::Some(r)) == if r.eligible_for_notice {
            Option::Some(r)
        } else {
            Option::<ActivityRecord>::None
        },
{
}

/// Whether no two of the listed results speak of the same identity, as a
/// listing of a well-formed roster guarantees.
pub open spec fn distinct_result_keys(results: Seq<PollResult>) -> bool {
    forall|i: int, j: int|
        0 <= i < results.len() && 0 <= j < results.len() && i != j
            ==> results[i].identity@.key != results[j].identity@.key
}

/// Every watermark write of a tick names the key of one of the tick's
/// results.
proof fn lemma_update_keys_come_from_results(results: Seq<PollResult>)
    ensures
        forall|k: int|
            0 <= k < planned_updates(results).len() ==> exists|i: int|
                0 <= i < results.len()
                    && #[trigger] planned_updates(results)[k].key == results[i].identity@.key,
    decreases results.len(),
{
    if results.len() > 0 {
        let rest = results.drop_first();
        lemma_update_keys_come_from_results(rest);
        assert forall|k: int| 0 <= k < planned_updates(results).len() implies exists|i: int|
            0 <= i < results.len()
                && #[trigger] planned_updates(results)[k].key == results[i].identity@.key by {
            let head_len = planned_updates(results).len() - planned_updates(rest).len();
            if k < head_len {
                assert(planned_updates(results)[k].key == results[0].identity@.key);
            } else {
                let w = choose|i: int|
                    0 <= i < rest.len() && #[trigger] planned_updates(rest)[k - head_len].key
                        == rest[i].identity@.key;
                assert(planned_updates(results)[k].key == results[w + 1].identity@.key);
            }
        }
    }
}

/// Law: a tick owes at most one watermark write per identity. The roster
/// lists each key once, each listed identity is fetched once, and each
/// result decides at most one write.
pub proof fn lemma_one_update_per_identity(results: Seq<PollResult>)
    requires
        distinct_result_keys(results),
    ensures
        forall|k: int, l: int|
            0 <= k < planned_updates(results).len() && 0 <= l < planned_updates(results).len()
                && k != l ==> planned_updates(results)[k].key != planned_updates(results)[l].key,
    decreases results.len(),
{
    if results.len() > 0 {
        let rest = results.drop_first();
        assert(distinct_result_keys(rest)) by {
            assert(forall|i: int, j: int|
                0 <= i < rest.len() && 0 <= j < rest.len() && i != j ==> rest[i].identity@.key
                    != rest[j].identity@.key) by {
                assert(forall|i: int| 0 <= i < rest.len() ==> rest[i] == results[i + 1]);
            }
        }
        lemma_one_update_per_identity(rest);
        lemma_update_keys_come_from_results(rest);
        let head_len = planned_updates(results).len() - planned_updates(rest).len();
        assert forall|k: int, l: int|
            0 <= k < planned_updates(results).len() && 0 <= l < planned_updates(results).len()
                && k != l implies planned_updates(results)[k].key
            != planned_updates(results)[l].key by {
            if k >= head_len && l >= head_len {
                assert(planned_updates(results)[k] == planned_updates(rest)[k - head_len]);
                assert(planned_updates(results)[l] == planned_updates(rest)[l - head_len]);
            } else {
                let m = if k < head_len {
                    l
                } else {
                    k
                };
                assert(planned_updates(results)[m] == planned_updates(rest)[m - head_len]);
                let w = choose|i: int|
                    0 <= i < rest.len() && #[trigger] planned_updates(rest)[m - head_len].key
                        == rest[i].identity@.key;
                assert(rest[w] == results[w + 1]);
                assert(planned_updates(results)[if k < head_len {
                    k
                } else {
                    l
                }].key == results[0].identity@.key);
            }
        }
    }
}

/// Law: one identity's failed fetch is isolated. Dropping the failed result
/// from a tick changes nothing: the failed fetch itself owes no watermark
/// write and no emission, and it blocks no other identity's.
pub proof fn lemma_fetch_failure_isolated(results: Seq<PollResult>, i: int)
    requires
        0 <= i < results.len(),
        results[i].outcome is FetchFailed,
    ensures
        planned_updates(results) == planned_updates(results.remove(i)),
        planned_emissions(results) == planned_emissions(results.remove(i)),
    decreases results.len(),
{
    if i == 0 {
        assert(result_update(results.first()) is None);
        assert(result_emit(results.first()) is None);
        assert(results.remove(0) =~= results.drop_first());
        assert(planned_updates(results) =~= planned_updates(results.drop_first()));
        assert(planned_emissions(results) =~= planned_emissions(results.drop_first()));
    } else {
        let rest = results.drop_first();
        lemma_fetch_failure_isolated(rest, i - 1);
        assert(results.remove(i).first() == results.first());
        assert(results.remove(i).drop_first() =~= rest.remove(i - 1));
        assert(planned_updates(results) =~= planned_updates(results.remove(i)));
        assert(planned_emissions(results) =~= planned_emissions(results.remove(i)));
    }
}

/// Law: the disabled gate. A new, eligible record fetched for a disabled
/// identity still advances the watermark — the store write does not depend
/// on the flag — but is never emitted.
pub proof fn lemma_disabled_gate(p: PollResult, r: ActivityRecord)
    requires
        fetched_record(p.outcome) == Option::Some(r),
        r.eligible_for_notice,
        !(p.identity@.last_seen_record_id matches Option::Some(w) && w == r.record_id@),
        !p.identity@.enabled,
    ensures
        result_update(p) == Option::Some(r.record_id@),
        result_emit(p) == Option::<ActivityRecord>::None,
{
}

} // verus!

