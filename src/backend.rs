//! The store service: the key-value map and its two operations.
//!
//! Inserts and lookups are serialized by whoever serves the map to
//! concurrent requests (one lock around the whole service); each operation
//! below is then atomic, and its contract is the whole story.
use vstd::hash_map::StringHashMap;
use vstd::prelude::*;

use crate::protocol::{is_not_found_status, not_found_status, RpcStatus};
use crate::store::lookup;

verus! {

/// The store service: an in-memory map from string keys to string values.
pub struct BackendService {
    database: StringHashMap<String>,
}

impl View for BackendService {
    type V = Map<Seq<char>, Seq<char>>;

    closed spec fn view(&self) -> Map<Seq<char>, Seq<char>> {
        self.database@.map_values(|v: String| v@)
    }
}

impl BackendService {
    /// A service over an empty store.
    pub fn new() -> (r: BackendService)
        ensures
            r@ == Map::<Seq<char>, Seq<char>>::empty(),
    {
        let r = BackendService { database: StringHashMap::new() };
        assert(r@ =~= Map::<Seq<char>, Seq<char>>::empty());
        r
    }

    /// Writes `value` under `key`, replacing any earlier value; empty and
    /// blank strings are stored like any other. Always reports success.
    pub fn insert_value(&mut self, key: String, value: String) -> (r: bool)
        ensures
            r,
            final(self)@ == old(self)@.insert(key@, value@),
    {
        self.database.insert(key, value);
        assert(self@ =~= old(self)@.insert(key@, value@));
        true
    }

    /// The value stored under `key`, or a not-found status naming the key.
    /// The store is only read.
    pub fn get_value(&self, key: &str) -> (r: Result<String, RpcStatus>)
        ensures
            match r {
                Ok(v) => lookup(self@, key@) == Some(v@),
                Err(s) => lookup(self@, key@) is None && is_not_found_status(s, key@),
            },
    {
        match self.database.get(key) {
            Some(v) => {
                assert(self@.contains_key(key@));
                Ok(v.clone())
            },
            None => Err(not_found_status(key)),
        }
    }
}

} // verus!
