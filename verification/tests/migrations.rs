//! The migration engine on concrete stores: chained upgrades from version 0,
//! the single step from version 1, idempotence, and the no-op at or beyond
//! the current version.

use kitties::migrations::{migrate, v0, v1, v2, Record, StoredRecords};

fn v0_store() -> StoredRecords {
    StoredRecords {
        version: 0,
        records: vec![(0, Record::V0(v0::Kitty([1; 16]))), (1, Record::V0(v0::Kitty([2; 16])))],
    }
}

#[test]
fn migrate_from_v0_reaches_current_layout() {
    let mut store = v0_store();
    migrate(&mut store);
    assert_eq!(store.version, 2);
    assert_eq!(store.records.len(), 2);
    assert_eq!(
        store.records[0],
        (0, Record::V2(v2::Kitty { dna: [1; 16], name: *b"NULL0000" }))
    );
    assert_eq!(
        store.records[1],
        (1, Record::V2(v2::Kitty { dna: [2; 16], name: *b"NULL0000" }))
    );
}

#[test]
fn migrate_from_v1_pads_names() {
    let mut store = StoredRecords {
        version: 1,
        records: vec![(5, Record::V1(v1::Kitty { dna: [9; 16], name: *b"abcd" }))],
    };
    migrate(&mut store);
    assert_eq!(store.version, 2);
    assert_eq!(
        store.records[0],
        (5, Record::V2(v2::Kitty { dna: [9; 16], name: *b"abcd0000" }))
    );
}

#[test]
fn migrate_twice_changes_nothing() {
    let mut store = v0_store();
    migrate(&mut store);
    let version_after_first = store.version;
    let records_after_first = store.records.clone();
    migrate(&mut store);
    assert_eq!(store.version, version_after_first);
    assert_eq!(store.records, records_after_first);
}

#[test]
fn migrate_at_current_version_is_noop() {
    let mut store = StoredRecords {
        version: 2,
        records: vec![(3, Record::V2(v2::Kitty { dna: [4; 16], name: *b"whiskers" }))],
    };
    migrate(&mut store);
    assert_eq!(store.version, 2);
    assert_eq!(
        store.records[0],
        (3, Record::V2(v2::Kitty { dna: [4; 16], name: *b"whiskers" }))
    );

    let mut ahead = StoredRecords {
        version: 7,
        records: vec![(3, Record::V2(v2::Kitty { dna: [4; 16], name: *b"whiskers" }))],
    };
    migrate(&mut ahead);
    assert_eq!(ahead.version, 7);
    assert_eq!(ahead.records.len(), 1);
}

#[test]
fn out_of_order_transform_is_safe_noop() {
    // A transform invoked when the recorded version is not its expected
    // predecessor must leave the store untouched.
    let mut store = StoredRecords {
        version: 2,
        records: vec![(0, Record::V0(v0::Kitty([1; 16])))],
    };
    v1::Upgrade::migrate(&mut store);
    assert_eq!(store.version, 2);
    assert_eq!(store.records[0], (0, Record::V0(v0::Kitty([1; 16]))));
}
