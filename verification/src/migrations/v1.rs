//! The second record layout generation: the dna gains a four-byte name.

use vstd::prelude::*;

use crate::migrations::v0;
use crate::migrations::{lifted_to_v1, v1_default_name, Record, StoredRecords};

verus! {

/// Schema version recorded by this generation.
pub const STORAGE_VERSION: u16 = 1;

/// Asset identifiers, unchanged from the previous generation.
pub type KittyId = v0::KittyId;

/// The version-1 record layout.
#[derive(Clone, Copy, Debug, PartialEq, Eq)]
pub struct Kitty {
    pub dna: [u8; 16],
    pub name: [u8; 4],
}

/// The transform that lifts the store from version 0 to version 1.
pub struct Upgrade;

impl Upgrade {
    /// Rewrite every version-0 record into the version-1 layout, filling the
    /// new name field with the documented default. A safe no-op unless the
    /// recorded version is exactly this transform's predecessor.
    pub fn migrate(store: &mut StoredRecords)
        ensures
            final(store).version == old(store).version,
            old(store).version == v0::STORAGE_VERSION ==> final(store)@.records == old(
                store,
            )@.records.map_values(
                |p: (KittyId, crate::migrations::RecordImage)| (p.0, lifted_to_v1(p.1)),
            ),
            old(store).version != v0::STORAGE_VERSION ==> final(store)@ == old(store)@,
    {
        if store.version != v0::STORAGE_VERSION {
            return ;
        }
        let n = store.records.len();
        let mut i: usize = 0;
        while i < n
            invariant
                i <= n,
                n == store.records.len(),
                store.version == old(store).version,
                n == old(store).records@.len(),
                forall|j: int|
                    0 <= j < i ==> store.records@[j].0 == old(store).records@[j].0
                        && store.records@[j].1@ == lifted_to_v1(old(store).records@[j].1@),
                forall|j: int| i <= j < n ==> store.records@[j] == old(store).records@[j],
            decreases n - i,
        {
            let (id, rec) = store.records[i];
            match rec {
                Record::V0(k) => {
                    let name: [u8; 4] = [0x4e, 0x55, 0x4c, 0x4c];
                    proof {
                        assert(name@ =~= v1_default_name());
                    }
                    store.records.set(i, (id, Record::V1(Kitty { dna: k.0, name })));
                },
                _ => {},
            }
            i = i + 1;
        }
        proof {
            assert(store@.records =~= old(store)@.records.map_values(
                |p: (KittyId, crate::migrations::RecordImage)| (p.0, lifted_to_v1(p.1)),
            ));
        }
    }
}

} // verus!
