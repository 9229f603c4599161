//! Association lists as maps.
//!
//! Both shared stores (the idempotency cache and the read model) hold
//! their entries as a vector of key/value pairs with pairwise-distinct
//! keys.  This module gives such a sequence its meaning as a `Map` and
//! proves the lookup and update facts the stores build on.

use vstd::prelude::*;

verus! {

/// The map an association list denotes; on duplicate keys the later
/// entry wins.
pub open spec fn map_of<K, V>(s: Seq<(K, V)>) -> Map<K, V>
    decreases s.len(),
{
    if s.len() == 0 {
        Map::empty()
    } else {
        map_of(s.drop_last()).insert(s.last().0, s.last().1)
    }
}

/// No two entries share a key.
pub open spec fn distinct_keys<K, V>(s: Seq<(K, V)>) -> bool {
    forall|i: int, j: int| 0 <= i < j < s.len() ==> (#[trigger] s[i]).0 != (#[trigger] s[j]).0
}

/// A key is in the map exactly when some entry carries it.
pub proof fn lemma_map_of_contains<K, V>(s: Seq<(K, V)>, k: K)
    ensures
        map_of(s).contains_key(k) <==> exists|i: int| 0 <= i < s.len() && (#[trigger] s[i]).0 == k,
    decreases s.len(),
{
    if s.len() > 0 {
        lemma_map_of_contains(s.drop_last(), k);
        if s.last().0 == k {
            assert((s[s.len() - 1]).0 == k);
        } else {
            if map_of(s).contains_key(k) {
                let i = choose|i: int| 0 <= i < s.len() - 1 && (#[trigger] s.drop_last()[i]).0
                    == k;
                assert((s[i]).0 == k);
            }
            if exists|i: int| 0 <= i < s.len() && (#[trigger] s[i]).0 == k {
                let i = choose|i: int| 0 <= i < s.len() && (#[trigger] s[i]).0 == k;
                assert(i < s.len() - 1);
                assert((s.drop_last()[i]).0 == k);
            }
        }
    }
}

/// Under distinct keys, the entry at `i` is what the map stores for its
/// key.
pub proof fn lemma_map_of_index<K, V>(s: Seq<(K, V)>, i: int)
    requires
        distinct_keys(s),
        0 <= i < s.len(),
    ensures
        map_of(s).contains_key((s[i]).0),
        map_of(s)[(s[i]).0] == (s[i]).1,
    decreases s.len(),
{
    if i < s.len() - 1 {
        assert(distinct_keys(s.drop_last()));
        assert((s.drop_last()[i]).0 == (s[i]).0);
        lemma_map_of_index(s.drop_last(), i);
        assert((s[i]).0 != (s[s.len() - 1]).0);
    }
}

/// Appending an entry inserts its binding.
pub proof fn lemma_map_of_push<K, V>(s: Seq<(K, V)>, k: K, v: V)
    ensures
        map_of(s.push((k, v))) == map_of(s).insert(k, v),
{
    assert(s.push((k, v)).drop_last() =~= s);
}

/// Removing the entry at `i` removes exactly its binding.
pub proof fn lemma_map_of_remove<K, V>(s: Seq<(K, V)>, i: int)
    requires
        distinct_keys(s),
        0 <= i < s.len(),
    ensures
        map_of(s.remove(i)) == map_of(s).remove((s[i]).0),
        distinct_keys(s.remove(i)),
    decreases s.len(),
{
    assert forall|a: int, b: int| 0 <= a < b < s.remove(i).len() implies (#[trigger] s.remove(
        i,
    )[a]).0 != (#[trigger] s.remove(i)[b]).0 by {
        let a0 = if a < i {
            a
        } else {
            a + 1
        };
        let b0 = if b < i {
            b
        } else {
            b + 1
        };
        assert((s[a0]).0 != (s[b0]).0);
    }
    if i == s.len() - 1 {
        assert(s.remove(i) =~= s.drop_last());
        lemma_map_of_contains(s.drop_last(), (s[i]).0);
        assert(!map_of(s.drop_last()).contains_key((s[i]).0)) by {
            if exists|j: int| 0 <= j < s.len() - 1 && (#[trigger] s.drop_last()[j]).0 == (
            s[i]).0 {
                let j = choose|j: int| 0 <= j < s.len() - 1 && (#[trigger] s.drop_last()[j]).0
                    == (s[i]).0;
                assert((s[j]).0 == (s[i]).0);
            }
        }
        assert(map_of(s).remove((s[i]).0) =~= map_of(s.drop_last()));
    } else {
        lemma_map_of_remove(s.drop_last(), i);
        assert(s.remove(i).drop_last() =~= s.drop_last().remove(i));
        assert(s.remove(i).last() == s.last());
        assert((s[i]).0 != (s[s.len() - 1]).0);
        assert(map_of(s.remove(i)) == map_of(s.drop_last()).remove((s[i]).0).insert(
            s.last().0,
            s.last().1,
        ));
        assert(map_of(s.drop_last()).remove((s[i]).0).insert(s.last().0, s.last().1)
            =~= map_of(s.drop_last()).insert(s.last().0, s.last().1).remove((s[i]).0));
    }
}

} // verus!
