//! The idempotency store of the command handler.
//!
//! A key-to-cached-response map with per-entry expiry.  Retried commands
//! under a live key read their first response back verbatim; entries
//! past their expiry count as absent.  The store tolerates any
//! interleaving of writers because a write is a plain last-writer-wins
//! insert.

use vstd::prelude::*;
use crate::assoc::{
    distinct_keys, lemma_map_of_contains, lemma_map_of_index, lemma_map_of_push,
    lemma_map_of_remove, map_of,
};
use crate::commands::{CreateTransactionResponse, CreateTransactionResponseV};

verus! {

/// Seconds a cached response stays live: twenty-four hours.
pub const IDEMPOTENCY_TTL_SECONDS: i64 = 86400;

/// One cached response and the moment it stops counting.
pub struct IdempotencyRecord {
    pub response: CreateTransactionResponse,
    pub expires_at: i64,
}

/// Mathematical image of an `IdempotencyRecord`.
pub ghost struct IdempotencyRecordV {
    pub response: CreateTransactionResponseV,
    pub expires_at: i64,
}

impl View for IdempotencyRecord {
    type V = IdempotencyRecordV;

    open spec fn view(&self) -> IdempotencyRecordV {
        IdempotencyRecordV { response: self.response@, expires_at: self.expires_at }
    }
}

/// Key-to-record store, seen as a `Map` from key characters to records.
pub struct IdempotencyStore {
    entries: Vec<(String, IdempotencyRecord)>,
}

impl View for IdempotencyStore {
    type V = Map<Seq<char>, IdempotencyRecordV>;

    closed spec fn view(&self) -> Map<Seq<char>, IdempotencyRecordV> {
        map_of(self.kvs())
    }
}

impl IdempotencyStore {
    /// The entries, each key and record taken to its image.
    closed spec fn kvs(&self) -> Seq<(Seq<char>, IdempotencyRecordV)> {
        self.entries@.map_values(|p: (String, IdempotencyRecord)| (p.0@, p.1@))
    }

    /// Each key is held by at most one entry.
    pub closed spec fn wf(&self) -> bool {
        distinct_keys(self.kvs())
    }

    /// An empty store.
    pub fn new() -> (s: Self)
        ensures
            s.wf(),
            s@ == Map::<Seq<char>, IdempotencyRecordV>::empty(),
    {
        let s = IdempotencyStore { entries: Vec::new() };
        proof {
            assert(s.kvs() =~= Seq::<(Seq<char>, IdempotencyRecordV)>::empty());
            assert(s@ =~= Map::<Seq<char>, IdempotencyRecordV>::empty());
        }
        s
    }

    /// Index of the entry holding `key`, if any.
    fn find_index(&self, key: &String) -> (r: Option<usize>)
        ensures
            r matches Some(i) ==> i < self.kvs().len() && self.kvs()[i as int].0 == key@,
            r is None ==> forall|j: int|
                0 <= j < self.kvs().len() ==> (#[trigger] self.kvs()[j]).0 != key@,
    {
        let n = self.entries.len();
        let mut i: usize = 0;
        while i < n
            invariant
                0 <= i <= n,
                n == self.entries@.len(),
                forall|j: int| 0 <= j < i ==> (#[trigger] self.kvs()[j]).0 != key@,
            decreases n - i,
        {
            if self.entries[i].0 == *key {
                proof {
                    assert(self.kvs()[i as int].0 == key@);
                }
                return Some(i);
            }
            i += 1;
        }
        None
    }

    /// The live cached response under `key` at the moment `now`, if
    /// one exists.
    pub fn get(&self, key: &String, now: i64) -> (r: Option<&CreateTransactionResponse>)
        requires
            self.wf(),
        ensures
            r matches Some(resp) ==> self@.contains_key(key@) && now < self@[key@].expires_at
                && resp@ == self@[key@].response,
            r is None ==> !(self@.contains_key(key@) && now < self@[key@].expires_at),
    {
        proof {
            lemma_map_of_contains(self.kvs(), key@);
        }
        match self.find_index(key) {
            Some(i) => {
                proof {
                    lemma_map_of_index(self.kvs(), i as int);
                }
                let record = &self.entries[i].1;
                if now < record.expires_at {
                    Some(&record.response)
                } else {
                    None
                }
            },
            None => None,
        }
    }

    /// Caches `record` under `key`, replacing whatever held the key
    /// before.
    pub fn put(&mut self, key: String, record: IdempotencyRecord)
        requires
            old(self).wf(),
        ensures
            final(self).wf(),
            final(self)@ == old(self)@.insert(key@, record@),
    {
        let ghost s0 = self.kvs();
        match self.find_index(&key) {
            Some(i) => {
                proof {
                    lemma_map_of_remove(s0, i as int);
                }
                self.entries.remove(i);
                proof {
                    assert(self.kvs() =~= s0.remove(i as int));
                    assert(self@ == map_of(s0).remove(key@));
                    assert forall|j: int| 0 <= j < self.kvs().len() implies (
                    #[trigger] self.kvs()[j]).0 != key@ by {
                        if j < i {
                            assert(s0[j].0 != s0[i as int].0);
                        } else {
                            assert(s0[j + 1].0 != s0[i as int].0);
                        }
                    }
                }
            },
            None => {},
        }
        let ghost s1 = self.kvs();
        self.entries.push((key, record));
        proof {
            assert(self.kvs() =~= s1.push((key@, record@)));
            lemma_map_of_push(s1, key@, record@);
            assert forall|a: int, b: int|
                0 <= a < b < self.kvs().len() implies (#[trigger] self.kvs()[a]).0 != (
            #[trigger] self.kvs()[b]).0 by {
                if b == self.kvs().len() - 1 {
                    assert(s1[a].0 != key@);
                } else {
                    assert(s1[a].0 != s1[b].0);
                }
            }
            assert(self@ =~= map_of(s0).insert(key@, record@));
        }
    }
}

} // verus!
