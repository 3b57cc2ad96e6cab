//! The schema migration engine: an ordered chain of versioned record-layout
//! transforms, applied in strictly increasing version order to bring the
//! persisted store from whatever version is on disk up to the version this
//! code requires. Each transform guards on its exact predecessor version, so
//! an out-of-order invocation is a safe no-op, and a store already at (or
//! beyond) the newest version is left untouched.

use vstd::prelude::*;

pub mod v0;
pub mod v1;
pub mod v2;

verus! {

use crate::migrations::v0::KittyId;

/// A persisted record, in whichever layout generation wrote it.
#[derive(Clone, Copy, Debug, PartialEq, Eq)]
pub enum Record {
    V0(v0::Kitty),
    V1(v1::Kitty),
    V2(v2::Kitty),
}

/// The mathematical image of a record: its layout generation and its bytes.
pub ghost enum RecordImage {
    V0 { dna: Seq<u8> },
    V1 { dna: Seq<u8>, name: Seq<u8> },
    V2 { dna: Seq<u8>, name: Seq<u8> },
}

impl View for Record {
    type V = RecordImage;

    open spec fn view(&self) -> RecordImage {
        match self {
            Record::V0(k) => RecordImage::V0 { dna: k.0@ },
            Record::V1(k) => RecordImage::V1 { dna: k.dna@, name: k.name@ },
            Record::V2(k) => RecordImage::V2 { dna: k.dna@, name: k.name@ },
        }
    }
}

/// The persisted store as the migration engine sees it: the recorded schema
/// version and every record under its key.
pub struct StoredRecords {
    pub version: u16,
    pub records: Vec<(KittyId, Record)>,
}

/// The mathematical image of the persisted store.
#[verifier::ext_equal]
pub ghost struct StoreImage {
    pub version: u16,
    pub records: Seq<(KittyId, RecordImage)>,
}

impl View for StoredRecords {
    type V = StoreImage;

    open spec fn view(&self) -> StoreImage {
        StoreImage {
            version: self.version,
            records: self.records@.map_values(|p: (KittyId, Record)| (p.0, p.1@)),
        }
    }
}

/// The name a version-0 record receives when lifted to version 1: the four
/// bytes of `"NULL"`.
pub open spec fn v1_default_name() -> Seq<u8> {
    seq![0x4eu8, 0x55u8, 0x4cu8, 0x4cu8]
}

/// The padding appended to a four-byte name when it is lifted to the
/// eight-byte version-2 field: the four bytes of `"0000"`.
pub open spec fn v2_name_padding() -> Seq<u8> {
    seq![0x30u8, 0x30u8, 0x30u8, 0x30u8]
}

/// The version-1 transform on one record: a version-0 record gains the
/// default name; any other record is left untouched.
pub open spec fn lifted_to_v1(r: RecordImage) -> RecordImage {
    match r {
        RecordImage::V0 { dna } => RecordImage::V1 { dna, name: v1_default_name() },
        _ => r,
    }
}

/// The version-2 transform on one record: a version-1 record keeps its dna
/// and its four name bytes, padded to eight; any other record is left
/// untouched.
pub open spec fn lifted_to_v2(r: RecordImage) -> RecordImage {
    match r {
        RecordImage::V1 { dna, name } => RecordImage::V2 { dna, name: name + v2_name_padding() },
        _ => r,
    }
}

/// What one full run of the migration engine does to the persisted store:
/// every transform with a version above the recorded one is applied, in
/// ascending order, and the recorded version rises to the highest known;
/// a store at or beyond that version is untouched.
pub open spec fn spec_migrate(s: StoreImage) -> StoreImage {
    if s.version == v0::STORAGE_VERSION {
        StoreImage {
            version: v2::STORAGE_VERSION,
            records: s.records.map_values(
                |p: (KittyId, RecordImage)| (p.0, lifted_to_v2(lifted_to_v1(p.1))),
            ),
        }
    } else if s.version == v1::STORAGE_VERSION {
        StoreImage {
            version: v2::STORAGE_VERSION,
            records: s.records.map_values(|p: (KittyId, RecordImage)| (p.0, lifted_to_v2(p.1))),
        }
    } else {
        s
    }
}

/// Run the migration chain: apply, in ascending version order, every
/// transform whose target version is above the version found on disk, and
/// record each target version as it is reached.
pub fn migrate(store: &mut StoredRecords)
    ensures
        final(store)@ == spec_migrate(old(store)@),
{
    let on_chain = store.version;
    if on_chain < v1::STORAGE_VERSION {
        v1::Upgrade::migrate(store);
        store.version = v1::STORAGE_VERSION;
    }
    if on_chain < v2::STORAGE_VERSION {
        v2::Upgrade::migrate(store);
        store.version = v2::STORAGE_VERSION;
    }
    proof {
        assert(store@ =~= spec_migrate(old(store)@));
    }
}

/// Law: the migration engine is idempotent — a second run straight after a
/// first produces no observable change to any record or to the recorded
/// schema version.
pub proof fn lemma_migrate_idempotent(s: StoreImage)
    ensures
        spec_migrate(spec_migrate(s)) == spec_migrate(s),
{
}

/// Whether a record carries the layout that a store recorded at `version`
/// prescribes; from the current version on, that is the current layout.
pub open spec fn record_matches_version(version: u16, r: RecordImage) -> bool {
    if version == v0::STORAGE_VERSION {
        r is V0
    } else if version == v1::STORAGE_VERSION {
        r is V1
    } else {
        r is V2
    }
}

/// A store is layout-consistent when every record carries the layout its
/// recorded version prescribes.
pub open spec fn layout_consistent(s: StoreImage) -> bool {
    forall|i: int| 0 <= i < s.records.len() ==> record_matches_version(s.version, s.records[i].1)
}

/// Law: one engine run takes any layout-consistent store to the current
/// layout: the recorded version becomes the highest known to this code (or
/// stays put where it is already at or beyond it), every record carries the
/// current layout, and the keys stand as before.
pub proof fn lemma_migrate_reaches_current(s: StoreImage)
    requires
        layout_consistent(s),
    ensures
        layout_consistent(spec_migrate(s)),
        spec_migrate(s).version == if s.version < v2::STORAGE_VERSION {
            v2::STORAGE_VERSION
        } else {
            s.version
        },
        spec_migrate(s).records.len() == s.records.len(),
        forall|i: int|
            0 <= i < s.records.len() ==> spec_migrate(s).records[i].0 == s.records[i].0,
{
}

/// Law: migrating a version-0 store yields the current layout — the
/// recorded version reads 2 and every record keeps its key and its dna and
/// carries the documented default-filled name.
pub proof fn lemma_migrate_from_v0(s: StoreImage)
    requires
        s.version == v0::STORAGE_VERSION,
        forall|i: int| 0 <= i < s.records.len() ==> s.records[i].1 is V0,
    ensures
        spec_migrate(s).version == v2::STORAGE_VERSION,
        spec_migrate(s).records.len() == s.records.len(),
        forall|i: int|
            0 <= i < s.records.len() ==> spec_migrate(s).records[i] == (
                s.records[i].0,
                RecordImage::V2 {
                    dna: s.records[i].1->V0_dna,
                    name: v1_default_name() + v2_name_padding(),
                },
            ),
{
}

} // verus!
