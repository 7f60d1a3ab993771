//! Scenario tests for the synchronization engine: loading, saving, removal,
//! freshness suppression and exclusion, on concrete records.

use bevy_easy_database::engine::LoadPlan;
use bevy_easy_database::engine::RemovalEvent;
use bevy_easy_database::engine::SaveCandidate;
use bevy_easy_database::engine::SyncEngine;
use bevy_easy_database::keys::encode_key;

#[test]
fn load_unknown_key_plans_spawn() {
    let engine = SyncEngine::new();
    let key = encode_key(7);
    assert_eq!(engine.plan_load(&key), LoadPlan::Spawn { original: 7 });
}

#[test]
fn load_mapped_key_plans_attach() {
    let mut engine = SyncEngine::new();
    engine.record_spawn(7, 100);
    let key = encode_key(7);
    assert_eq!(engine.plan_load(&key), LoadPlan::Attach { object: 100 });
}

#[test]
fn cross_type_reconciliation_lands_on_one_object() {
    // Original object 7 had attribute sets of two types. Loading the first
    // type spawns one object; the second type's record, keyed by the same
    // original id, attaches to that same object instead of spawning another.
    let mut engine = SyncEngine::new();
    let key = encode_key(7);
    match engine.plan_load(&key) {
        LoadPlan::Spawn { original } => {
            assert_eq!(original, 7);
            engine.record_spawn(original, 100);
        }
        other => panic!("first load should spawn, planned {:?}", other),
    }
    assert_eq!(engine.plan_load(&key), LoadPlan::Attach { object: 100 });
}

#[test]
fn wrong_width_key_is_skipped_and_scan_goes_on() {
    // A scan meets a corrupt 3-byte key followed by a sound one; the corrupt
    // record is skipped and the sound one is still loaded.
    let engine = SyncEngine::new();
    let records: Vec<Vec<u8>> = vec![vec![0, 0, 7], encode_key(9)];
    let mut planned = Vec::new();
    for record_key in &records {
        planned.push(engine.plan_load(record_key));
    }
    assert_eq!(planned[0], LoadPlan::Skip);
    assert_eq!(planned[1], LoadPlan::Spawn { original: 9 });
}

#[test]
fn null_id_key_is_skipped() {
    let engine = SyncEngine::new();
    let key = vec![0xff, 0xff, 0xff, 0xff];
    assert_eq!(engine.plan_load(&key), LoadPlan::Skip);
}

#[test]
fn fresh_object_is_not_resaved_until_cleanup() {
    // A value the loader just placed on object 100 looks "changed" to the
    // host; the fresh mark suppresses the write this cycle. After the
    // end-of-cycle cleanup, a write happens if and only if it changed again.
    let mut engine = SyncEngine::new();
    engine.record_spawn(7, 100);
    assert_eq!(engine.plan_save(100, true, false), None);
    engine.end_cycle();
    assert_eq!(engine.plan_save(100, false, false), None);
    assert_eq!(engine.plan_save(100, true, false), Some(encode_key(100)));
}

#[test]
fn attach_marks_fresh_too() {
    let mut engine = SyncEngine::new();
    engine.record_spawn(7, 100);
    engine.end_cycle();
    engine.mark_fresh(100);
    assert_eq!(engine.plan_save(100, true, false), None);
    engine.end_cycle();
    assert_eq!(engine.plan_save(100, true, false), Some(encode_key(100)));
}

#[test]
fn save_uses_current_id_not_original() {
    // The object loaded from original id 7 now lives under id 100; its next
    // write is keyed by 100.
    let mut engine = SyncEngine::new();
    engine.record_spawn(7, 100);
    engine.end_cycle();
    assert_eq!(engine.plan_save(100, true, false), Some(encode_key(100)));
}

#[test]
fn excluded_object_never_writes_or_deletes() {
    let mut engine = SyncEngine::new();
    engine.record_spawn(7, 100);
    engine.end_cycle();
    assert_eq!(engine.plan_save(100, true, true), None);
    assert_eq!(engine.plan_removal(100, true), None);
    let candidates = vec![SaveCandidate {
        object: 100,
        changed: true,
        excluded: true,
        payload: vec![1, 2, 3],
    }];
    assert!(engine.plan_saves(&candidates).is_empty());
    let events = vec![RemovalEvent { object: 100, excluded: true }];
    assert!(engine.plan_removals(&events).is_empty());
}

#[test]
fn save_cycle_plans_exactly_the_due_writes() {
    let mut engine = SyncEngine::new();
    engine.record_spawn(7, 100);
    let candidates = vec![
        // fresh: just loaded, suppressed
        SaveCandidate { object: 100, changed: true, excluded: false, payload: vec![1] },
        // due for a write
        SaveCandidate { object: 5, changed: true, excluded: false, payload: vec![2, 2] },
        // unchanged
        SaveCandidate { object: 6, changed: false, excluded: false, payload: vec![3] },
        // excluded
        SaveCandidate { object: 8, changed: true, excluded: true, payload: vec![4] },
    ];
    let writes = engine.plan_saves(&candidates);
    assert_eq!(writes.len(), 1);
    assert_eq!(writes[0].key, encode_key(5));
    assert_eq!(writes[0].payload, vec![2, 2]);
}

#[test]
fn removal_cycle_plans_deletes_in_order() {
    let engine = SyncEngine::new();
    let events = vec![
        RemovalEvent { object: 5, excluded: false },
        RemovalEvent { object: 9, excluded: true },
        RemovalEvent { object: 6, excluded: false },
    ];
    let keys = engine.plan_removals(&events);
    assert_eq!(keys, vec![encode_key(5), encode_key(6)]);
}

#[test]
fn duplicate_removal_is_harmless() {
    // The host delivers the same removal twice; both plan the same delete,
    // and neither is an error.
    let engine = SyncEngine::new();
    let events = vec![
        RemovalEvent { object: 5, excluded: false },
        RemovalEvent { object: 5, excluded: false },
    ];
    let keys = engine.plan_removals(&events);
    assert_eq!(keys, vec![encode_key(5), encode_key(5)]);
    assert_eq!(engine.plan_removal(5, false), Some(encode_key(5)));
    assert_eq!(engine.plan_removal(5, false), Some(encode_key(5)));
}

#[test]
fn cleanup_keeps_the_load_id_mapping() {
    let mut engine = SyncEngine::new();
    engine.record_spawn(7, 100);
    engine.end_cycle();
    let key = encode_key(7);
    assert_eq!(engine.plan_load(&key), LoadPlan::Attach { object: 100 });
}
