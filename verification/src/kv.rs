//! Association lists with string keys, and the finite map each one denotes.
//!
//! Both the per-account data store and the account table are kept as vectors
//! of key-value pairs with pairwise-distinct keys. The spec-level contents of
//! such a list is the `Map` built by inserting the pairs in order; the lemmas
//! here relate lookup, update and removal on the list to the same operations
//! on the map.

use vstd::prelude::*;

verus! {

/// The finite map denoted by a sequence of key-value pairs; a later pair
/// with the same key would shadow an earlier one, but all lists the library
/// builds keep their keys distinct.
pub open spec fn kv_map<V>(s: Seq<(Seq<char>, V)>) -> Map<Seq<char>, V>
    decreases s.len(),
{
    if s.len() == 0 {
        Map::empty()
    } else {
        kv_map(s.drop_last()).insert(s.last().0, s.last().1)
    }
}

/// Pairwise-distinct keys.
pub open spec fn kv_distinct<V>(s: Seq<(Seq<char>, V)>) -> bool {
    forall|i: int, j: int| 0 <= i < j < s.len() ==> (#[trigger] s[i]).0 != (#[trigger] s[j]).0
}

/// A key is in the map exactly when some pair of the list carries it.
pub proof fn lemma_kv_contains<V>(s: Seq<(Seq<char>, V)>, k: Seq<char>)
    ensures
        kv_map(s).contains_key(k) <==> exists|i: int| 0 <= i < s.len() && (#[trigger] s[i]).0 == k,
    decreases s.len(),
{
    if s.len() > 0 {
        let sub = s.drop_last();
        lemma_kv_contains(sub, k);
        assert(s[s.len() - 1] == s.last());
        if kv_map(s).contains_key(k) && k != s.last().0 {
            let i = choose|i: int| 0 <= i < sub.len() && (#[trigger] sub[i]).0 == k;
            assert(s[i] == sub[i]);
        }
        if exists|i: int| 0 <= i < s.len() && (#[trigger] s[i]).0 == k {
            let i = choose|i: int| 0 <= i < s.len() && (#[trigger] s[i]).0 == k;
            if i < s.len() - 1 {
                assert(sub[i] == s[i]);
            }
        }
    }
}

/// Dropping the last pair keeps the keys distinct.
pub proof fn lemma_kv_distinct_drop_last<V>(s: Seq<(Seq<char>, V)>)
    requires
        kv_distinct(s),
        s.len() > 0,
    ensures
        kv_distinct(s.drop_last()),
{
    let sub = s.drop_last();
    assert forall|i: int, j: int| 0 <= i < j < sub.len() implies (#[trigger] sub[i]).0 != (
    #[trigger] sub[j]).0 by {
        assert(sub[i] == s[i]);
        assert(sub[j] == s[j]);
    }
}

/// With distinct keys, the map sends each listed key to its listed value.
pub proof fn lemma_kv_index<V>(s: Seq<(Seq<char>, V)>, i: int)
    requires
        kv_distinct(s),
        0 <= i < s.len(),
    ensures
        kv_map(s).contains_key(s[i].0),
        kv_map(s)[s[i].0] == s[i].1,
    decreases s.len(),
{
    let sub = s.drop_last();
    assert(s[s.len() - 1] == s.last());
    if i < s.len() - 1 {
        lemma_kv_distinct_drop_last(s);
        lemma_kv_index(sub, i);
        assert(sub[i] == s[i]);
        assert(s[i].0 != s[s.len() - 1].0);
    }
}

/// Appending a pair inserts its binding.
pub proof fn lemma_kv_push<V>(s: Seq<(Seq<char>, V)>, p: (Seq<char>, V))
    ensures
        kv_map(s.push(p)) == kv_map(s).insert(p.0, p.1),
{
    assert(s.push(p).drop_last() =~= s);
    assert(s.push(p).last() == p);
}

/// Appending a pair whose key is fresh keeps the keys distinct.
pub proof fn lemma_kv_push_distinct<V>(s: Seq<(Seq<char>, V)>, p: (Seq<char>, V))
    requires
        kv_distinct(s),
        forall|i: int| 0 <= i < s.len() ==> (#[trigger] s[i]).0 != p.0,
    ensures
        kv_distinct(s.push(p)),
{
    let t = s.push(p);
    assert forall|i: int, j: int| 0 <= i < j < t.len() implies (#[trigger] t[i]).0 != (
    #[trigger] t[j]).0 by {
        assert(t[i] == s[i]);
        if j < s.len() {
            assert(t[j] == s[j]);
        } else {
            assert(t[j] == p);
        }
    }
}

/// With distinct keys, removing the pair at `i` removes exactly its binding.
pub proof fn lemma_kv_remove<V>(s: Seq<(Seq<char>, V)>, i: int)
    requires
        kv_distinct(s),
        0 <= i < s.len(),
    ensures
        kv_map(s.remove(i)) == kv_map(s).remove(s[i].0),
        kv_distinct(s.remove(i)),
    decreases s.len(),
{
    let k = s[i].0;
    let r = s.remove(i);
    let sub = s.drop_last();
    assert(s[s.len() - 1] == s.last());
    assert forall|a: int, b: int| 0 <= a < b < r.len() implies (#[trigger] r[a]).0 != (
    #[trigger] r[b]).0 by {
        assert(r[a] == if a < i { s[a] } else { s[a + 1] });
        assert(r[b] == if b < i { s[b] } else { s[b + 1] });
    }
    if i == s.len() - 1 {
        assert(r =~= sub);
        lemma_kv_distinct_drop_last(s);
        lemma_kv_contains(sub, k);
        assert(forall|j: int| 0 <= j < sub.len() ==> (#[trigger] sub[j]).0 != k);
        assert(!kv_map(sub).contains_key(k));
        assert(kv_map(sub).remove(k) =~= kv_map(sub));
        assert(kv_map(s).remove(k) =~= kv_map(sub).insert(k, s[i].1).remove(k));
        assert(kv_map(sub).insert(k, s[i].1).remove(k) =~= kv_map(sub));
    } else {
        lemma_kv_distinct_drop_last(s);
        lemma_kv_remove(sub, i);
        assert(sub[i] == s[i]);
        assert(r.len() > 0);
        assert(r.drop_last() =~= sub.remove(i));
        assert(r.last() == s.last());
        assert(kv_map(r) == kv_map(sub.remove(i)).insert(s.last().0, s.last().1));
        assert(k != s.last().0);
        assert(kv_map(sub).remove(k).insert(s.last().0, s.last().1) =~= kv_map(sub).insert(
            s.last().0,
            s.last().1,
        ).remove(k));
    }
}

} // verus!
