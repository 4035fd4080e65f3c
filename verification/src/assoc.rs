//! A keyed record list: the mathematical model behind every state map of the
//! engine (balances, provenance records, voter records).
//!
//! A state map is held as a vector of `(key, value)` pairs whose keys are
//! pairwise distinct. `assoc_get` is the lookup it denotes; the lemmas here
//! say how that lookup changes under `push` and `update`.

use vstd::prelude::*;

verus! {

/// The keys of the record list are pairwise distinct.
pub open spec fn distinct_keys<V>(s: Seq<(u64, V)>) -> bool {
    forall|i: int, j: int| 0 <= i < j < s.len() ==> s[i].0 != s[j].0
}

/// The value recorded under `key`, if any.
pub open spec fn assoc_get<V>(s: Seq<(u64, V)>, key: u64) -> Option<V>
    decreases s.len(),
{
    if s.len() == 0 {
        None
    } else if s.last().0 == key {
        Some(s.last().1)
    } else {
        assoc_get(s.drop_last(), key)
    }
}

/// Dropping the last record keeps the keys distinct.
pub proof fn lemma_distinct_drop_last<V>(s: Seq<(u64, V)>)
    requires
        distinct_keys(s),
        s.len() > 0,
    ensures
        distinct_keys(s.drop_last()),
{
    assert forall|i: int, j: int| 0 <= i < j < s.drop_last().len() implies s.drop_last()[i].0
        != s.drop_last()[j].0 by {
        assert(s.drop_last()[i] == s[i]);
        assert(s.drop_last()[j] == s[j]);
    }
}

/// A key that no record holds is not found.
pub proof fn lemma_assoc_get_absent<V>(s: Seq<(u64, V)>, key: u64)
    requires
        forall|i: int| 0 <= i < s.len() ==> s[i].0 != key,
    ensures
        assoc_get(s, key) is None,
    decreases s.len(),
{
    if s.len() > 0 {
        assert(s.last() == s[s.len() - 1]);
        assert forall|i: int| 0 <= i < s.drop_last().len() implies s.drop_last()[i].0 != key by {
            assert(s.drop_last()[i] == s[i]);
        }
        lemma_assoc_get_absent(s.drop_last(), key);
    }
}

/// With distinct keys, the lookup of the key of record `i` finds its value.
pub proof fn lemma_assoc_get_index<V>(s: Seq<(u64, V)>, i: int)
    requires
        distinct_keys(s),
        0 <= i < s.len(),
    ensures
        assoc_get(s, s[i].0) == Some(s[i].1),
    decreases s.len(),
{
    assert(s.last() == s[s.len() - 1]);
    if i == s.len() - 1 {
    } else {
        lemma_distinct_drop_last(s);
        assert(s.drop_last()[i] == s[i]);
        lemma_assoc_get_index(s.drop_last(), i);
    }
}

/// Appending a record under a key changes only that key's lookup.
pub proof fn lemma_assoc_get_push<V>(s: Seq<(u64, V)>, entry: (u64, V))
    ensures
        forall|k: u64| #[trigger] assoc_get(s.push(entry), k) == if k == entry.0 {
            Some(entry.1)
        } else {
            assoc_get(s, k)
        },
{
    let t = s.push(entry);
    assert(t.last() == entry);
    assert(t.drop_last() =~= s);
}

/// Appending a record under a fresh key keeps the keys distinct.
pub proof fn lemma_distinct_push<V>(s: Seq<(u64, V)>, entry: (u64, V))
    requires
        distinct_keys(s),
        forall|i: int| 0 <= i < s.len() ==> s[i].0 != entry.0,
    ensures
        distinct_keys(s.push(entry)),
{
    let t = s.push(entry);
    assert forall|i: int, j: int| 0 <= i < j < t.len() implies t[i].0 != t[j].0 by {
        if j < s.len() {
            assert(t[i] == s[i]);
            assert(t[j] == s[j]);
        } else {
            assert(t[i] == s[i]);
            assert(t[j] == entry);
        }
    }
}

/// Overwriting the value of record `i`, key kept, changes only that key's
/// lookup, and keeps the keys distinct.
pub proof fn lemma_assoc_get_update<V>(s: Seq<(u64, V)>, i: int, value: V)
    requires
        distinct_keys(s),
        0 <= i < s.len(),
    ensures
        forall|k: u64| #[trigger] assoc_get(s.update(i, (s[i].0, value)), k) == if k == s[i].0 {
            Some(value)
        } else {
            assoc_get(s, k)
        },
        distinct_keys(s.update(i, (s[i].0, value))),
    decreases s.len(),
{
    let t = s.update(i, (s[i].0, value));
    assert forall|p: int, q: int| 0 <= p < q < t.len() implies t[p].0 != t[q].0 by {
        assert(t[p].0 == s[p].0);
        assert(t[q].0 == s[q].0);
    }
    assert(s.last() == s[s.len() - 1]);
    if i == s.len() - 1 {
        assert(t.last() == (s[i].0, value));
        assert(t.drop_last() =~= s.drop_last());
    } else {
        lemma_distinct_drop_last(s);
        assert(t.last() == s.last());
        assert(s.drop_last()[i] == s[i]);
        assert(t.drop_last() =~= s.drop_last().update(i, (s.drop_last()[i].0, value)));
        lemma_assoc_get_update(s.drop_last(), i, value);
        assert forall|k: u64| #[trigger] assoc_get(t, k) == if k == s[i].0 {
            Some(value)
        } else {
            assoc_get(s, k)
        } by {
            let u = s.drop_last().update(i, (s.drop_last()[i].0, value));
            assert(assoc_get(u, k) == if k == s[i].0 {
                Some(value)
            } else {
                assoc_get(s.drop_last(), k)
            });
            assert(t.drop_last() == u);
            if k == s.last().0 {
                assert(s[i].0 != s.last().0);
                assert(assoc_get(t, k) == Some(t.last().1));
                assert(assoc_get(s, k) == Some(s.last().1));
            } else {
                assert(assoc_get(t, k) == assoc_get(t.drop_last(), k));
                assert(assoc_get(s, k) == assoc_get(s.drop_last(), k));
            }
        }
    }
}

/// Finds the position of the record under `key`, if any.
pub fn assoc_find<V>(entries: &Vec<(u64, V)>, key: u64) -> (r: Option<usize>)
    ensures
        match r {
            Some(i) => i < entries@.len() && entries@[i as int].0 == key,
            None => forall|i: int| 0 <= i < entries@.len() ==> entries@[i].0 != key,
        },
{
    let mut i: usize = 0;
    while i < entries.len()
        invariant
            i <= entries@.len(),
            forall|j: int| 0 <= j < i ==> entries@[j].0 != key,
        decreases entries@.len() - i,
    {
        if entries[i].0 == key {
            return Some(i);
        }
        i = i + 1;
    }
    None
}

} // verus!
