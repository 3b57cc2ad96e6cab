//! The third record layout generation: the name grows to eight bytes.

use vstd::prelude::*;

use crate::migrations::v1;
use crate::migrations::{lifted_to_v2, v2_name_padding, Record, StoredRecords};

verus! {

/// Schema version recorded by this generation.
pub const STORAGE_VERSION: u16 = 2;

/// Asset identifiers, unchanged from the previous generation.
pub type KittyId = v1::KittyId;

/// The current record layout: 16-byte dna and an 8-byte name.
#[derive(Clone, Copy, Debug, PartialEq, Eq)]
pub struct Kitty {
    pub dna: [u8; 16],
    pub name: [u8; 8],
}

/// The transform that lifts the store from version 1 to version 2.
pub struct Upgrade;

impl Upgrade {
    /// Rewrite every version-1 record into the version-2 layout, keeping the
    /// four name bytes and padding with the documented filler. A safe no-op
    /// unless the recorded version is exactly this transform's predecessor.
    pub fn migrate(store: &mut StoredRecords)
        ensures
            final(store).version == old(store).version,
            old(store).version == v1::STORAGE_VERSION ==> final(store)@.records == old(
                store,
            )@.records.map_values(
                |p: (KittyId, crate::migrations::RecordImage)| (p.0, lifted_to_v2(p.1)),
            ),
            old(store).version != v1::STORAGE_VERSION ==> final(store)@ == old(store)@,
    {
        if store.version != v1::STORAGE_VERSION {
            return ;
        }
        let n = store.records.len();
        let mut i: usize = 0;
        while i < n
            invariant
                i <= n,
                n == store.records.len(),
                store.version == old(store).version,
                n == old(store).records@.len(),
                forall|j: int|
                    0 <= j < i ==> store.records@[j].0 == old(store).records@[j].0
                        && store.records@[j].1@ == lifted_to_v2(old(store).records@[j].1@),
                forall|j: int| i <= j < n ==> store.records@[j] == old(store).records@[j],
            decreases n - i,
        {
            let (id, rec) = store.records[i];
            match rec {
                Record::V1(k) => {
                    let mut name: [u8; 8] = [0x30; 8];
                    name[0] = k.name[0];
                    name[1] = k.name[1];
                    name[2] = k.name[2];
                    name[3] = k.name[3];
                    proof {
                        assert(name@ =~= k.name@ + v2_name_padding());
                    }
                    store.records.set(i, (id, Record::V2(Kitty { dna: k.dna, name })));
                },
                _ => {},
            }
            i = i + 1;
        }
        proof {
            assert(store@.records =~= old(store)@.records.map_values(
                |p: (KittyId, crate::migrations::RecordImage)| (p.0, lifted_to_v2(p.1)),
            ));
        }
    }
}

} // verus!
