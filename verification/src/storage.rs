//! Storage for the issuer: a plain key-value store behind a trait, and the
//! certificate store of the issuance flow.

pub mod memory_storage;

use vstd::hash_map::StringHashMap;
use vstd::prelude::*;

verus! {

/// A key-value store of strings. An implementation may refuse to store, but
/// it never stores something else than it was given, and it reads back what
/// it holds.
pub trait Storage: Send + Sync {
    /// What the store holds.
    spec fn entries(&self) -> Map<Seq<char>, Seq<char>>;

    /// Stores `value` under `key`, in place of what `key` held before.
    fn store(&mut self, key: String, value: String) -> (r: Result<(), String>)
        ensures
            r is Ok ==> final(self).entries() == old(self).entries().insert(key@, value@),
            r is Err ==> final(self).entries() == old(self).entries(),
    ;

    /// The value stored under exactly `key`, if there is one.
    fn retrieve(&self, key: &str) -> (r: Option<String>)
        ensures
            match r {
                Some(value) => self.entries().index_opt(key@) == Some(value@),
                None => !self.entries().contains_key(key@),
            },
    ;
}

/// A key-value store in memory. Storing never fails.
pub struct MemoryStorage {
    data: StringHashMap<String>,
}

impl MemoryStorage {
    /// A store that holds nothing.
    pub fn new() -> (storage: MemoryStorage)
        ensures
            storage.entries() == Map::<Seq<char>, Seq<char>>::empty(),
    {
        let storage = MemoryStorage { data: StringHashMap::new() };
        assert(storage.entries() =~= Map::<Seq<char>, Seq<char>>::empty());
        storage
    }
}

impl Storage for MemoryStorage {
    closed spec fn entries(&self) -> Map<Seq<char>, Seq<char>> {
        self.data@.map_values(|value: String| value@)
    }

    fn store(&mut self, key: String, value: String) -> (r: Result<(), String>)
        ensures
            r is Ok,
    {
        let ghost before = self.entries();
        self.data.insert(key, value);
        assert(self.entries() =~= before.insert(key@, value@));
        Ok(())
    }

    fn retrieve(&self, key: &str) -> (r: Option<String>) {
        match self.data.get(key) {
            Some(value) => Some(value.clone()),
            None => None,
        }
    }
}

/// A fresh key-value store, ready to be shared behind a lock.
pub fn new_shared_storage() -> (storage: MemoryStorage)
    ensures
        storage.entries() == Map::<Seq<char>, Seq<char>>::empty(),
{
    MemoryStorage::new()
}

} // verus!
