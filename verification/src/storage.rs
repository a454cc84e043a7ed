//! The in-process backend: the maps that hold file records and aliases while
//! the durable backend is not in use. They live as long as the process.

use crate::record::{FileData, FileRecord};
use std::collections::HashMap;
use vstd::hash_map::StringHashMap;
use vstd::prelude::*;

verus! {

broadcast use vstd::std_specs::hash::group_hash_axioms;

/// Every record of a map of records has exactly one storage location.
pub open spec fn records_wf(records: Map<u128, FileRecord>) -> bool {
    forall|id: u128| #[trigger] records.contains_key(id) ==> records[id].wf()
}

/// File records by identifier.
pub struct FileStorage {
    map: HashMap<u128, FileData>,
}

impl View for FileStorage {
    type V = Map<u128, FileRecord>;

    closed spec fn view(&self) -> Map<u128, FileRecord> {
        Map::new(|id: u128| self.map@.contains_key(id), |id: u128| self.map@[id]@)
    }
}

impl FileStorage {
    /// Every stored record is a valid record.
    pub closed spec fn wf(&self) -> bool {
        forall|id: u128| #[trigger] self.map@.contains_key(id) ==> self.map@[id].inv()
    }

    /// In a valid store every record has exactly one storage location.
    pub proof fn lemma_records_wf(&self)
        requires
            self.wf(),
        ensures
            records_wf(self@),
    {
        assert forall|id: u128| #[trigger] self@.contains_key(id) implies self@[id].wf() by {
            self.map@[id].lemma_inv();
        }
    }

    /// An empty store.
    pub fn new() -> (storage: FileStorage)
        ensures
            storage.wf(),
            storage@ == Map::<u128, FileRecord>::empty(),
    {
        let storage = FileStorage { map: HashMap::new() };
        assert(storage@ =~= Map::<u128, FileRecord>::empty());
        storage
    }

    /// Stores `record` under `id`, replacing what was there.
    pub fn insert(&mut self, id: u128, record: FileData)
        requires
            old(self).wf(),
        ensures
            final(self).wf(),
            final(self)@ == old(self)@.insert(id, record@),
            records_wf(final(self)@),
    {
        proof {
            use_type_invariant(&record);
        }
        self.map.insert(id, record);
        proof {
            assert(self@ =~= old(self)@.insert(id, record@));
            self.lemma_records_wf();
        }
    }

    /// The record stored under `id`.
    pub fn get(&self, id: u128) -> (record: Option<&FileData>)
        ensures
            match record {
                Some(found) => self@.contains_key(id) && found@ == self@[id] && found@.wf(),
                None => !self@.contains_key(id),
            },
    {
        let record = self.map.get(&id);
        proof {
            if let Some(found) = record {
                use_type_invariant(found);
                found.lemma_inv();
            }
        }
        record
    }

    /// The number of records.
    pub fn len(&self) -> (count: usize)
        ensures
            count == self@.dom().len(),
    {
        assert(self@.dom() =~= self.map@.dom());
        self.map.len()
    }
}

/// Aliases: short code to file identifier.
pub struct ShortUrlStorage {
    map: StringHashMap<u128>,
}

impl View for ShortUrlStorage {
    type V = Map<Seq<char>, u128>;

    closed spec fn view(&self) -> Map<Seq<char>, u128> {
        self.map@
    }
}

impl ShortUrlStorage {
    /// An empty store.
    pub fn new() -> (storage: ShortUrlStorage)
        ensures
            storage@ == Map::<Seq<char>, u128>::empty(),
    {
        ShortUrlStorage { map: StringHashMap::new() }
    }

    /// Maps `short_code` to `id`. A mapping that exists for the code is
    /// overwritten.
    pub fn insert(&mut self, short_code: String, id: u128)
        ensures
            final(self)@ == old(self)@.insert(short_code@, id),
    {
        self.map.insert(short_code, id);
    }

    /// The identifier that `short_code` stands for.
    pub fn get(&self, short_code: &str) -> (id: Option<u128>)
        ensures
            id == (if self@.contains_key(short_code@) {
                Some(self@[short_code@])
            } else {
                None
            }),
    {
        match self.map.get(short_code) {
            Some(id) => Some(*id),
            None => None,
        }
    }

    /// The number of aliases.
    pub fn len(&self) -> (count: usize)
        ensures
            count == self@.len(),
    {
        broadcast use vstd::hash_map::group_hash_map_axioms;

        self.map.len()
    }
}

} // verus!
