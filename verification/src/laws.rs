//! The engine's guarantees, stated and proved once over the contracts of the
//! key codec and the synchronization engine.

use vstd::prelude::*;
use crate::engine::LoadPlan;
use crate::engine::RemovalEvent;
use crate::engine::SaveCandidate;
use crate::engine::SyncEngine;
use crate::keys::key_bytes_of;
use crate::keys::lemma_key_round_trip;
use crate::keys::KEY_WIDTH;
use crate::keys::NULL_ID;

verus! {

/// Round trip: the write a save cycle plans for an object is keyed so that a
/// later run, starting from an empty load-id mapping, decodes that key back
/// to the object's id and spawns exactly one object for it; the payload rides
/// along unchanged (the save plan carries it verbatim).
pub proof fn lemma_save_load_round_trip(saver: SyncEngine, later_run: SyncEngine, object: u32)
    requires
        object != NULL_ID,
        !saver.fresh_ids().contains(object),
        later_run.id_map() == Map::<u32, u32>::empty(),
    ensures
        saver.spec_plan_save(object, true, false) == Some(key_bytes_of(object)),
        later_run.spec_plan_load(key_bytes_of(object)) == (LoadPlan::Spawn { original: object }),
{
    lemma_key_round_trip(object);
}

/// No re-save loop: while an object is marked fresh — its value was just
/// written by the loader this cycle — no write is planned for it, whatever
/// the host's change detection reports.
pub proof fn lemma_fresh_suppresses_save(e: SyncEngine, object: u32, changed: bool, excluded: bool)
    requires
        e.fresh_ids().contains(object),
    ensures
        e.spec_plan_save(object, changed, excluded) is None,
{
}

/// After the end-of-cycle cleanup has cleared every fresh mark, a write is
/// planned for a non-excluded object if, and only if, its value changed
/// again.
pub proof fn lemma_save_after_cleanup(e: SyncEngine, object: u32, changed: bool)
    requires
        e.fresh_ids() == Set::<u32>::empty(),
    ensures
        e.spec_plan_save(object, changed, false) is Some <==> changed,
{
}

/// Cross-type reconciliation: once some type's load has spawned object `n`
/// for stored original id `o`, any other type's record keyed by the same
/// original id is attached to that same object — never spawned as a second
/// one.
pub proof fn lemma_cross_type_reconciliation(e: SyncEngine, o: u32, n: u32)
    requires
        o != NULL_ID,
        e.id_map().dom().contains(o),
        e.id_map()[o] == n,
    ensures
        e.spec_plan_load(key_bytes_of(o)) == (LoadPlan::Attach { object: n }),
{
    lemma_key_round_trip(o);
}

/// Idempotent removal: a removal event has no failure case, and delivering
/// the same event twice plans the same delete twice — the second delete finds
/// no record and is the storage engine's no-op.
pub proof fn lemma_duplicate_removal(s: Seq<RemovalEvent>, ev: RemovalEvent)
    requires
        !ev.excluded,
    ensures
        SyncEngine::spec_plan_removals(s.push(ev).push(ev)) == SyncEngine::spec_plan_removals(
            s,
        ).push(key_bytes_of(ev.object)).push(key_bytes_of(ev.object)),
{
    assert(s.push(ev).drop_last() =~= s);
    assert(SyncEngine::spec_plan_removals(s.push(ev)) == SyncEngine::spec_plan_removals(s).push(
        key_bytes_of(ev.object),
    ));
    assert(s.push(ev).push(ev).drop_last() =~= s.push(ev));
    assert(s.push(ev).push(ev).last() == ev);
}

/// Exclusion honored: an object carrying the exclusion marker never produces
/// a write or a delete, whatever its change or removal activity.
pub proof fn lemma_exclusion_honored(e: SyncEngine, object: u32, changed: bool)
    ensures
        e.spec_plan_save(object, changed, true) is None,
        SyncEngine::spec_plan_removal(object, true) is None,
{
}

/// Exclusion honored, over a whole cycle: an excluded candidate or removal
/// event contributes nothing to the cycle's planned writes and deletes.
pub proof fn lemma_exclusion_honored_in_cycle(
    e: SyncEngine,
    s: Seq<SaveCandidate>,
    c: SaveCandidate,
    r: Seq<RemovalEvent>,
    ev: RemovalEvent,
)
    requires
        c.excluded,
        ev.excluded,
    ensures
        e.spec_plan_saves(s.push(c)) == e.spec_plan_saves(s),
        SyncEngine::spec_plan_removals(r.push(ev)) == SyncEngine::spec_plan_removals(r),
{
    assert(s.push(c).drop_last() =~= s);
    assert(r.push(ev).drop_last() =~= r);
}

/// Key rejection: a stored record whose key is not exactly the fixed encoding
/// width is skipped — the plan for it is `Skip`, and the plan for every other
/// record depends only on that record's own key, so the scan goes on.
pub proof fn lemma_wrong_width_key_skipped(e: SyncEngine, key: Seq<u8>)
    requires
        key.len() != KEY_WIDTH,
    ensures
        e.spec_plan_load(key) == LoadPlan::Skip,
{
}

} // verus!
