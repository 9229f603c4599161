//! The read model the status projection maintains.
//!
//! The projection consumes `PaymentStatusUpdatedEvent`s delivered at
//! least once and in no guaranteed order.  An event is applied only if
//! its timestamp is not older than the stored one, so a stale
//! redelivery is a no-op and the model converges to the most recent
//! update it has seen.

use vstd::prelude::*;
use crate::assoc::{
    distinct_keys, lemma_map_of_contains, lemma_map_of_index, lemma_map_of_push,
    lemma_map_of_remove, map_of,
};
use crate::events::{PaymentStatusUpdatedEvent, PaymentStatusUpdatedEventV};
use crate::models::{TransactionStatus, TransactionStatusV};

verus! {

/// Current status of one transaction, as projected.
pub struct StatusRecord {
    pub status: TransactionStatus,
    pub stripe_payment_id: String,
    pub updated_at: i64,
}

/// Mathematical image of a `StatusRecord`.
pub ghost struct StatusRecordV {
    pub status: TransactionStatusV,
    pub stripe_payment_id: Seq<char>,
    pub updated_at: i64,
}

impl View for StatusRecord {
    type V = StatusRecordV;

    open spec fn view(&self) -> StatusRecordV {
        StatusRecordV {
            status: self.status@,
            stripe_payment_id: self.stripe_payment_id@,
            updated_at: self.updated_at,
        }
    }
}

/// The record an event writes.
pub open spec fn record_of(e: PaymentStatusUpdatedEventV) -> StatusRecordV {
    StatusRecordV {
        status: e.status,
        stripe_payment_id: e.stripe_payment_id,
        updated_at: e.timestamp,
    }
}

/// The idempotent-and-monotonic merge: an event older than the stored
/// record changes nothing; anything else overwrites.
pub open spec fn apply_update_spec(
    m: Map<u128, StatusRecordV>,
    e: PaymentStatusUpdatedEventV,
) -> Map<u128, StatusRecordV> {
    if m.contains_key(e.transaction_id) && e.timestamp < m[e.transaction_id].updated_at {
        m
    } else {
        m.insert(e.transaction_id, record_of(e))
    }
}

/// A redelivered event with an older timestamp than the stored record
/// leaves the model exactly as it was.
pub proof fn lemma_stale_update_is_noop(m: Map<u128, StatusRecordV>, e: PaymentStatusUpdatedEventV)
    requires
        m.contains_key(e.transaction_id),
        e.timestamp < m[e.transaction_id].updated_at,
    ensures
        apply_update_spec(m, e) == m,
{
}

/// Applying the same event twice is the same as applying it once.
pub proof fn lemma_apply_update_idempotent(
    m: Map<u128, StatusRecordV>,
    e: PaymentStatusUpdatedEventV,
)
    ensures
        apply_update_spec(apply_update_spec(m, e), e) == apply_update_spec(m, e),
{
    let once = apply_update_spec(m, e);
    if !(m.contains_key(e.transaction_id) && e.timestamp < m[e.transaction_id].updated_at) {
        assert(apply_update_spec(once, e) =~= once);
    }
}

/// The stored moment of a projected transaction never moves backwards.
pub proof fn lemma_apply_update_monotonic(
    m: Map<u128, StatusRecordV>,
    e: PaymentStatusUpdatedEventV,
    k: u128,
)
    requires
        m.contains_key(k),
    ensures
        apply_update_spec(m, e).contains_key(k),
        m[k].updated_at <= apply_update_spec(m, e)[k].updated_at,
{
}

/// Transaction-id-to-record store, seen as a `Map`.
pub struct ReadModelStore {
    entries: Vec<(u128, StatusRecord)>,
}

impl View for ReadModelStore {
    type V = Map<u128, StatusRecordV>;

    closed spec fn view(&self) -> Map<u128, StatusRecordV> {
        map_of(self.kvs())
    }
}

impl ReadModelStore {
    /// The entries, each record taken to its image.
    closed spec fn kvs(&self) -> Seq<(u128, StatusRecordV)> {
        self.entries@.map_values(|p: (u128, StatusRecord)| (p.0, p.1@))
    }

    /// Each transaction id is held by at most one entry.
    pub closed spec fn wf(&self) -> bool {
        distinct_keys(self.kvs())
    }

    /// An empty read model.
    pub fn new() -> (s: Self)
        ensures
            s.wf(),
            s@ == Map::<u128, StatusRecordV>::empty(),
    {
        let s = ReadModelStore { entries: Vec::new() };
        proof {
            assert(s.kvs() =~= Seq::<(u128, StatusRecordV)>::empty());
            assert(s@ =~= Map::<u128, StatusRecordV>::empty());
        }
        s
    }

    /// Index of the entry holding `transaction_id`, if any.
    fn find_index(&self, transaction_id: u128) -> (r: Option<usize>)
        ensures
            r matches Some(i) ==> i < self.kvs().len() && self.kvs()[i as int].0
                == transaction_id,
            r is None ==> forall|j: int|
                0 <= j < self.kvs().len() ==> (#[trigger] self.kvs()[j]).0 != transaction_id,
    {
        let n = self.entries.len();
        let mut i: usize = 0;
        while i < n
            invariant
                0 <= i <= n,
                n == self.entries@.len(),
                forall|j: int| 0 <= j < i ==> (#[trigger] self.kvs()[j]).0 != transaction_id,
            decreases n - i,
        {
            if self.entries[i].0 == transaction_id {
                proof {
                    assert(self.kvs()[i as int].0 == transaction_id);
                }
                return Some(i);
            }
            i += 1;
        }
        None
    }

    /// The projected record of `transaction_id`, if the projection has
    /// seen it.
    pub fn get(&self, transaction_id: u128) -> (r: Option<&StatusRecord>)
        requires
            self.wf(),
        ensures
            r matches Some(record) ==> self@.contains_key(transaction_id) && record@
                == self@[transaction_id],
            r is None ==> !self@.contains_key(transaction_id),
    {
        proof {
            lemma_map_of_contains(self.kvs(), transaction_id);
        }
        match self.find_index(transaction_id) {
            Some(i) => {
                proof {
                    lemma_map_of_index(self.kvs(), i as int);
                }
                Some(&self.entries[i].1)
            },
            None => None,
        }
    }

    /// Merges one delivered status event into the model, by the
    /// idempotent-and-monotonic rule.
    pub fn apply_status_update(&mut self, event: &PaymentStatusUpdatedEvent)
        requires
            old(self).wf(),
        ensures
            final(self).wf(),
            final(self)@ == apply_update_spec(old(self)@, event@),
    {
        let ghost s0 = self.kvs();
        match self.find_index(event.transaction_id) {
            Some(i) => {
                proof {
                    lemma_map_of_index(s0, i as int);
                }
                if event.timestamp < self.entries[i].1.updated_at {
                    return ;
                }
                proof {
                    lemma_map_of_remove(s0, i as int);
                }
                self.entries.remove(i);
                proof {
                    assert(self.kvs() =~= s0.remove(i as int));
                    assert forall|j: int| 0 <= j < self.kvs().len() implies (
                    #[trigger] self.kvs()[j]).0 != event.transaction_id by {
                        if j < i {
                            assert(s0[j].0 != s0[i as int].0);
                        } else {
                            assert(s0[j + 1].0 != s0[i as int].0);
                        }
                    }
                }
            },
            None => {
                proof {
                    lemma_map_of_contains(s0, event.transaction_id);
                }
            },
        }
        let ghost s1 = self.kvs();
        let record = StatusRecord {
            status: event.status.duplicate(),
            stripe_payment_id: event.stripe_payment_id.clone(),
            updated_at: event.timestamp,
        };
        self.entries.push((event.transaction_id, record));
        proof {
            assert(self.kvs() =~= s1.push((event.transaction_id, record@)));
            lemma_map_of_push(s1, event.transaction_id, record@);
            assert forall|a: int, b: int|
                0 <= a < b < self.kvs().len() implies (#[trigger] self.kvs()[a]).0 != (
            #[trigger] self.kvs()[b]).0 by {
                if b == self.kvs().len() - 1 {
                    assert(s1[a].0 != event.transaction_id);
                } else {
                    assert(s1[a].0 != s1[b].0);
                }
            }
            assert(self@ =~= apply_update_spec(map_of(s0), event@));
        }
    }
}

} // verus!
