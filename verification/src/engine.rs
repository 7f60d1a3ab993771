//! Synchronization engine: the per-cycle decisions of component persistence.
//!
//! The engine owns the process-wide load-id mapping (stored original id to the
//! id of the object recreated for it in this run) and the set of objects whose
//! values were just written by the loader ("fresh" objects, whose re-save is
//! suppressed for the rest of the cycle). The host runtime reports plain
//! facts — a record scanned from a partition, a change, a removal — and the
//! engine answers with the action to take; the host performs the storage and
//! object operations.

use vstd::prelude::*;
use std::collections::HashMap;
use std::collections::HashSet;
use crate::keys::key_bytes_of;
use crate::keys::spec_decode;
use crate::keys::decode_key;
use crate::keys::encode_key;

verus! {

broadcast use vstd::std_specs::hash::group_hash_axioms;

/// What the loader should do with one scanned storage record.
#[derive(Clone, Copy, Debug, PartialEq, Eq, Structural)]
pub enum LoadPlan {
    /// The record's key is corrupt or foreign: skip it and continue the scan.
    Skip,
    /// The record's original id is already mapped: attach the loaded value to
    /// that object and mark it fresh.
    Attach { object: u32 },
    /// The record's original id is new: spawn an object for it, attach the
    /// value, and report the spawn back to the engine.
    Spawn { original: u32 },
}

/// One live object as the host's change detection reports it to a save cycle.
pub struct SaveCandidate {
    /// The object's current id.
    pub object: u32,
    /// Whether the attribute-set value changed since the last cycle.
    pub changed: bool,
    /// Whether the object carries the exclusion marker.
    pub excluded: bool,
    /// The serialized attribute-set payload as it stands now.
    pub payload: Vec<u8>,
}

/// One pending storage write: a key and the payload to store under it.
pub struct WriteRecord {
    /// The storage key: the object's current id, encoded.
    pub key: Vec<u8>,
    /// The serialized payload to store.
    pub payload: Vec<u8>,
}

/// One attribute-set removal event as the host delivers it.
#[derive(Clone, Copy, Debug)]
pub struct RemovalEvent {
    /// The id of the object the attribute set was removed from.
    pub object: u32,
    /// Whether that object carries the exclusion marker.
    pub excluded: bool,
}

/// The byte sequences of an optional key, for stating contracts.
pub open spec fn bytes_view(w: Option<Vec<u8>>) -> Option<Seq<u8>> {
    match w {
        Some(v) => Some(v@),
        None => None,
    }
}

/// The (key, payload) byte sequences of planned writes, for stating contracts.
pub open spec fn write_views(s: Seq<WriteRecord>) -> Seq<(Seq<u8>, Seq<u8>)>
    decreases s.len(),
{
    if s.len() == 0 {
        Seq::empty()
    } else {
        write_views(s.drop_last()).push((s.last().key@, s.last().payload@))
    }
}

/// The byte sequences of planned delete keys, for stating contracts.
pub open spec fn key_views(s: Seq<Vec<u8>>) -> Seq<Seq<u8>>
    decreases s.len(),
{
    if s.len() == 0 {
        Seq::empty()
    } else {
        key_views(s.drop_last()).push(s.last()@)
    }
}

/// The engine's state for one process run.
pub struct SyncEngine {
    load_map: HashMap<u32, u32>,
    fresh: HashSet<u32>,
}

impl SyncEngine {
    /// The load-id mapping: stored original id to the id of the object
    /// recreated for it in this run.
    pub closed spec fn id_map(self) -> Map<u32, u32> {
        self.load_map@
    }

    /// The ids of objects whose values the loader just wrote this cycle.
    pub closed spec fn fresh_ids(self) -> Set<u32> {
        self.fresh@
    }

    /// Well-formedness: two distinct original ids never map to the same live
    /// object, so each recreated object stands for exactly one original.
    pub open spec fn wf(self) -> bool {
        forall|o1: u32, o2: u32|
            self.id_map().dom().contains(o1) && self.id_map().dom().contains(o2)
                && self.id_map()[o1] == self.id_map()[o2] ==> o1 == o2
    }

    /// A fresh engine for a new process run: nothing mapped, nothing fresh.
    pub fn new() -> (e: SyncEngine)
        ensures
            e.id_map() == Map::<u32, u32>::empty(),
            e.fresh_ids() == Set::<u32>::empty(),
            e.wf(),
    {
        SyncEngine { load_map: HashMap::new(), fresh: HashSet::new() }
    }

    /// The plan for one scanned record: skip an undecodable key; attach to the
    /// object already mapped for the key's original id; spawn otherwise.
    pub open spec fn spec_plan_load(self, key: Seq<u8>) -> LoadPlan {
        match spec_decode(key) {
            Some(original) => if self.id_map().dom().contains(original) {
                LoadPlan::Attach { object: self.id_map()[original] }
            } else {
                LoadPlan::Spawn { original }
            },
            None => LoadPlan::Skip,
        }
    }

    /// Decide what the loader should do with one scanned record.
    pub fn plan_load(&self, key: &[u8]) -> (p: LoadPlan)
        ensures
            p == self.spec_plan_load(key@),
    {
        match decode_key(key) {
            None => LoadPlan::Skip,
            Some(original) => match self.load_map.get(&original) {
                Some(object) => LoadPlan::Attach { object: *object },
                None => LoadPlan::Spawn { original },
            },
        }
    }

    /// Record that the host spawned object `object` for stored original id
    /// `original`, and mark the spawned object fresh. The host hands in a
    /// newly created object, so `object` is the id of no already-mapped one.
    pub fn record_spawn(&mut self, original: u32, object: u32)
        requires
            old(self).wf(),
            !old(self).id_map().dom().contains(original),
            forall|o: u32|
                old(self).id_map().dom().contains(o) ==> old(self).id_map()[o] != object,
        ensures
            final(self).id_map() == old(self).id_map().insert(original, object),
            final(self).fresh_ids() == old(self).fresh_ids().insert(object),
            final(self).wf(),
    {
        self.load_map.insert(original, object);
        self.fresh.insert(object);
    }

    /// Mark an object fresh after the loader attached a value to it.
    pub fn mark_fresh(&mut self, object: u32)
        ensures
            final(self).id_map() == old(self).id_map(),
            final(self).fresh_ids() == old(self).fresh_ids().insert(object),
            old(self).wf() ==> final(self).wf(),
    {
        self.fresh.insert(object);
        proof {
            if old(self).wf() {
                assert forall|o1: u32, o2: u32|
                    self.id_map().dom().contains(o1) && self.id_map().dom().contains(o2)
                        && self.id_map()[o1] == self.id_map()[o2] implies o1 == o2 by {
                    assert(old(self).id_map().dom().contains(o1));
                    assert(old(self).id_map().dom().contains(o2));
                }
            }
        }
    }

    /// Whether a save cycle writes an object's value of the cycled type: the
    /// value changed, the object is not excluded, and it was not just loaded.
    pub open spec fn spec_should_save(self, object: u32, changed: bool, excluded: bool) -> bool {
        changed && !excluded && !self.fresh_ids().contains(object)
    }

    /// The write a save cycle plans for one object: the key derived from the
    /// object's current id, or nothing if no write is due.
    pub open spec fn spec_plan_save(self, object: u32, changed: bool, excluded: bool) -> Option<
        Seq<u8>,
    > {
        if self.spec_should_save(object, changed, excluded) {
            Some(key_bytes_of(object))
        } else {
            None
        }
    }

    /// Decide whether one object's value is written this cycle, and under
    /// which key.
    pub fn plan_save(&self, object: u32, changed: bool, excluded: bool) -> (w: Option<Vec<u8>>)
        ensures
            bytes_view(w) == self.spec_plan_save(object, changed, excluded),
    {
        if changed && !excluded && !self.fresh.contains(&object) {
            Some(encode_key(object))
        } else {
            None
        }
    }

    /// The delete a removal event leads to: the key derived from the object's
    /// current id, or nothing for an excluded object.
    pub open spec fn spec_plan_removal(object: u32, excluded: bool) -> Option<Seq<u8>> {
        if !excluded {
            Some(key_bytes_of(object))
        } else {
            None
        }
    }

    /// Decide what one removal event deletes from storage. There is no
    /// failure case: a removal whose record is already absent plans the same
    /// harmless delete.
    pub fn plan_removal(&self, object: u32, excluded: bool) -> (d: Option<Vec<u8>>)
        ensures
            bytes_view(d) == Self::spec_plan_removal(object, excluded),
    {
        if !excluded {
            Some(encode_key(object))
        } else {
            None
        }
    }

    /// The writes one save cycle plans for the host's candidates, in the
    /// host's order: one per candidate whose value is due for a write, keyed
    /// by that candidate's current id, carrying its payload unchanged.
    pub open spec fn spec_plan_saves(self, s: Seq<SaveCandidate>) -> Seq<(Seq<u8>, Seq<u8>)>
        decreases s.len(),
    {
        if s.len() == 0 {
            Seq::empty()
        } else {
            let rest = self.spec_plan_saves(s.drop_last());
            let c = s.last();
            if self.spec_should_save(c.object, c.changed, c.excluded) {
                rest.push((key_bytes_of(c.object), c.payload@))
            } else {
                rest
            }
        }
    }

    /// Plan the writes of one save cycle over every candidate the host's
    /// change detection reports.
    pub fn plan_saves(&self, candidates: &Vec<SaveCandidate>) -> (ws: Vec<WriteRecord>)
        ensures
            write_views(ws@) == self.spec_plan_saves(candidates@),
    {
        let mut ws: Vec<WriteRecord> = Vec::new();
        let mut i: usize = 0;
        while i < candidates.len()
            invariant
                i <= candidates.len(),
                write_views(ws@) == self.spec_plan_saves(candidates@.take(i as int)),
            decreases candidates.len() - i,
        {
            let c = &candidates[i];
            proof {
                assert(candidates@.take(i + 1).drop_last() =~= candidates@.take(i as int));
                assert(candidates@.take(i + 1).last() == candidates@[i as int]);
            }
            if self.should_save_candidate(c) {
                let payload = c.payload.clone();
                proof {
                    assert(payload@ =~= c.payload@);
                }
                let w = WriteRecord { key: encode_key(c.object), payload };
                let ghost prev = ws@;
                ws.push(w);
                proof {
                    assert(ws@.drop_last() =~= prev);
                    assert(write_views(ws@) == write_views(prev).push((w.key@, w.payload@)));
                }
            }
            i = i + 1;
        }
        proof {
            assert(candidates@.take(candidates@.len() as int) =~= candidates@);
        }
        ws
    }

    /// Whether one reported candidate is due for a write this cycle.
    fn should_save_candidate(&self, c: &SaveCandidate) -> (r: bool)
        ensures
            r == self.spec_should_save(c.object, c.changed, c.excluded),
    {
        c.changed && !c.excluded && !self.fresh.contains(&c.object)
    }

    /// The deletes one removal cycle plans for the host's removal events, in
    /// the host's order: one per event on a non-excluded object, keyed by that
    /// object's current id.
    pub open spec fn spec_plan_removals(s: Seq<RemovalEvent>) -> Seq<Seq<u8>>
        decreases s.len(),
    {
        if s.len() == 0 {
            Seq::empty()
        } else {
            let rest = Self::spec_plan_removals(s.drop_last());
            match Self::spec_plan_removal(s.last().object, s.last().excluded) {
                Some(k) => rest.push(k),
                None => rest,
            }
        }
    }

    /// Plan the deletes of one removal cycle over every removal event the
    /// host delivers.
    pub fn plan_removals(&self, events: &Vec<RemovalEvent>) -> (ks: Vec<Vec<u8>>)
        ensures
            key_views(ks@) == Self::spec_plan_removals(events@),
    {
        let mut ks: Vec<Vec<u8>> = Vec::new();
        let mut i: usize = 0;
        while i < events.len()
            invariant
                i <= events.len(),
                key_views(ks@) == Self::spec_plan_removals(events@.take(i as int)),
            decreases events.len() - i,
        {
            let ev = events[i];
            proof {
                assert(events@.take(i + 1).drop_last() =~= events@.take(i as int));
                assert(events@.take(i + 1).last() == events@[i as int]);
            }
            if !ev.excluded {
                let k = encode_key(ev.object);
                let ghost prev = ks@;
                ks.push(k);
                proof {
                    assert(ks@.drop_last() =~= prev);
                    assert(key_views(ks@) == key_views(prev).push(k@));
                }
            }
            i = i + 1;
        }
        proof {
            assert(events@.take(events@.len() as int) =~= events@);
        }
        ks
    }

    /// Freshness marker cleanup, run once at the end of every cycle, after
    /// the cycle's save and removal synchronizers have run: every fresh mark
    /// is cleared, the load-id mapping stays for the rest of the run.
    pub fn end_cycle(&mut self)
        ensures
            final(self).id_map() == old(self).id_map(),
            final(self).fresh_ids() == Set::<u32>::empty(),
            old(self).wf() ==> final(self).wf(),
    {
        self.fresh = HashSet::new();
    }
}

} // verus!
