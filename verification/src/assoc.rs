//! Association lists from addresses to amounts.
//!
//! Both the campaign's deposit table and the in-memory asset ledger hold
//! their entries as a `Vec<(u64, i128)>` with pairwise-distinct keys.  This
//! module gives such a list its mathematical reading — a `Map<u64, int>`
//! and a running sum — together with the lemmas that relate updates of the
//! list to updates of the map and of the sum.

use vstd::prelude::*;

verus! {

/// No two entries of `s` share a key.
pub open spec fn pairs_unique(s: Seq<(u64, i128)>) -> bool {
    forall|i: int, j: int| 0 <= i < j < s.len() ==> s[i].0 != s[j].0
}

/// Every amount held in `s` is non-negative.
pub open spec fn pairs_nonneg(s: Seq<(u64, i128)>) -> bool {
    forall|i: int| 0 <= i < s.len() ==> s[i].1 >= 0
}

/// The sum of all amounts held in `s`.
pub open spec fn pairs_sum(s: Seq<(u64, i128)>) -> int
    decreases s.len(),
{
    if s.len() == 0 {
        0
    } else {
        pairs_sum(s.drop_last()) + s.last().1
    }
}

/// The map that `s` denotes: each key bound to its amount.
pub open spec fn pairs_map(s: Seq<(u64, i128)>) -> Map<u64, int>
    decreases s.len(),
{
    if s.len() == 0 {
        Map::empty()
    } else {
        pairs_map(s.drop_last()).insert(s.last().0, s.last().1 as int)
    }
}

/// The amount bound to `key` in `m`, or zero where `m` has no binding.
pub open spec fn map_get_or_zero(m: Map<u64, int>, key: u64) -> int {
    if m.contains_key(key) {
        m[key]
    } else {
        0
    }
}

/// A key is in the denoted map exactly where some entry holds it.
pub proof fn lemma_pairs_map_domain(s: Seq<(u64, i128)>, key: u64)
    ensures
        pairs_map(s).contains_key(key) <==> exists|i: int| 0 <= i < s.len() && s[i].0 == key,
    decreases s.len(),
{
    if s.len() > 0 {
        lemma_pairs_map_domain(s.drop_last(), key);
        if s.last().0 == key {
            assert(s[s.len() - 1].0 == key);
        } else if pairs_map(s).contains_key(key) {
            let i = choose|i: int| 0 <= i < s.drop_last().len() && s.drop_last()[i].0 == key;
            assert(s[i].0 == key);
        } else if exists|i: int| 0 <= i < s.len() && s[i].0 == key {
            let i = choose|i: int| 0 <= i < s.len() && s[i].0 == key;
            assert(s.drop_last()[i].0 == key);
        }
    }
}

/// With distinct keys, the denoted map binds each entry's key to its amount.
pub proof fn lemma_pairs_map_index(s: Seq<(u64, i128)>, i: int)
    requires
        pairs_unique(s),
        0 <= i < s.len(),
    ensures
        pairs_map(s).contains_key(s[i].0),
        pairs_map(s)[s[i].0] == s[i].1 as int,
    decreases s.len(),
{
    lemma_pairs_map_domain(s, s[i].0);
    if i < s.len() - 1 {
        assert(s[i].0 != s.last().0);
        assert(s.drop_last()[i] == s[i]);
        lemma_pairs_map_index(s.drop_last(), i);
    }
}

/// Updating the amount of entry `i` in place updates the denoted map at
/// that entry's key.
pub proof fn lemma_pairs_map_update(s: Seq<(u64, i128)>, i: int, v: i128)
    requires
        pairs_unique(s),
        0 <= i < s.len(),
    ensures
        pairs_map(s.update(i, (s[i].0, v))) == pairs_map(s).insert(s[i].0, v as int),
    decreases s.len(),
{
    let t = s.update(i, (s[i].0, v));
    if i == s.len() - 1 {
        assert(t.drop_last() =~= s.drop_last());
        assert(pairs_map(t) =~= pairs_map(s).insert(s[i].0, v as int));
    } else {
        assert(t.drop_last() =~= s.drop_last().update(i, (s[i].0, v)));
        assert(s.drop_last()[i] == s[i]);
        lemma_pairs_map_update(s.drop_last(), i, v);
        assert(s[i].0 != s.last().0);
        assert(pairs_map(t) =~= pairs_map(s).insert(s[i].0, v as int));
    }
}

/// Appending an entry inserts its binding into the denoted map.
pub proof fn lemma_pairs_map_push(s: Seq<(u64, i128)>, key: u64, v: i128)
    ensures
        pairs_map(s.push((key, v))) == pairs_map(s).insert(key, v as int),
{
    assert(s.push((key, v)).drop_last() =~= s);
}

/// Updating the amount of entry `i` moves the sum by the difference.
pub proof fn lemma_pairs_sum_update(s: Seq<(u64, i128)>, i: int, v: i128)
    requires
        0 <= i < s.len(),
    ensures
        pairs_sum(s.update(i, (s[i].0, v))) == pairs_sum(s) - s[i].1 + v,
    decreases s.len(),
{
    let t = s.update(i, (s[i].0, v));
    if i == s.len() - 1 {
        assert(t.drop_last() =~= s.drop_last());
    } else {
        assert(t.drop_last() =~= s.drop_last().update(i, (s[i].0, v)));
        assert(s.drop_last()[i] == s[i]);
        lemma_pairs_sum_update(s.drop_last(), i, v);
        assert(t.last() == s.last());
    }
}

/// Appending an entry adds its amount to the sum.
pub proof fn lemma_pairs_sum_push(s: Seq<(u64, i128)>, key: u64, v: i128)
    ensures
        pairs_sum(s.push((key, v))) == pairs_sum(s) + v,
{
    assert(s.push((key, v)).drop_last() =~= s);
}

/// With non-negative amounts the sum is non-negative.
pub proof fn lemma_pairs_sum_nonneg(s: Seq<(u64, i128)>)
    requires
        pairs_nonneg(s),
    ensures
        pairs_sum(s) >= 0,
    decreases s.len(),
{
    if s.len() > 0 {
        assert(pairs_nonneg(s.drop_last()));
        lemma_pairs_sum_nonneg(s.drop_last());
    }
}

/// With non-negative amounts, no single entry exceeds the sum.
pub proof fn lemma_pairs_sum_bounds_entry(s: Seq<(u64, i128)>, i: int)
    requires
        pairs_nonneg(s),
        0 <= i < s.len(),
    ensures
        s[i].1 <= pairs_sum(s),
    decreases s.len(),
{
    if i == s.len() - 1 {
        assert(pairs_nonneg(s.drop_last()));
        lemma_pairs_sum_nonneg(s.drop_last());
    } else {
        assert(pairs_nonneg(s.drop_last()));
        assert(s.drop_last()[i] == s[i]);
        lemma_pairs_sum_bounds_entry(s.drop_last(), i);
        assert(s.last().1 >= 0);
    }
}

/// The sum of all amounts bound in a finite map.
pub open spec fn map_sum(m: Map<u64, int>) -> int
    decreases m.dom().len(),
    when m.dom().finite()
{
    if m.dom().finite() && m.dom().len() > 0 {
        let k = m.dom().choose();
        m[k] + map_sum(m.remove(k))
    } else {
        0
    }
}

/// Removing a binding takes exactly its amount out of the sum.
pub proof fn lemma_map_sum_remove(m: Map<u64, int>, k: u64)
    requires
        m.dom().finite(),
        m.contains_key(k),
    ensures
        map_sum(m) == map_sum(m.remove(k)) + m[k],
    decreases m.dom().len(),
{
    broadcast use vstd::set::group_set_axioms;

    if m.dom().len() == 0 {
        m.dom().lemma_len0_is_empty();
    }
    let c = m.dom().choose();
    if c != k {
        lemma_map_sum_remove(m.remove(c), k);
        lemma_map_sum_remove(m.remove(k), c);
        assert(m.remove(c).remove(k) =~= m.remove(k).remove(c));
    }
}

/// Inserting a binding moves the sum by the difference with what the key
/// held before, if anything.
pub proof fn lemma_map_sum_insert(m: Map<u64, int>, k: u64, v: int)
    requires
        m.dom().finite(),
    ensures
        map_sum(m.insert(k, v)) == map_sum(m) + v - map_get_or_zero(m, k),
{
    broadcast use vstd::set::group_set_axioms;

    let mi = m.insert(k, v);
    lemma_map_sum_remove(mi, k);
    if m.contains_key(k) {
        lemma_map_sum_remove(m, k);
        assert(mi.remove(k) =~= m.remove(k));
    } else {
        assert(mi.remove(k) =~= m);
    }
}

/// With distinct keys, the map an association list denotes is finite and
/// sums to the same total as the list itself.
pub proof fn lemma_pairs_map_sum(s: Seq<(u64, i128)>)
    requires
        pairs_unique(s),
    ensures
        pairs_map(s).dom().finite(),
        map_sum(pairs_map(s)) == pairs_sum(s),
    decreases s.len(),
{
    broadcast use vstd::set::group_set_axioms;

    if s.len() == 0 {
        assert(pairs_map(s).dom() =~= Set::<u64>::empty());
    } else {
        let t = s.drop_last();
        assert(pairs_unique(t)) by {
            assert forall|i: int, j: int| 0 <= i < j < t.len() implies t[i].0 != t[j].0 by {
                assert(t[i] == s[i]);
                assert(t[j] == s[j]);
            }
        }
        lemma_pairs_map_sum(t);
        lemma_pairs_map_domain(t, s.last().0);
        assert(!pairs_map(t).contains_key(s.last().0)) by {
            if exists|i: int| 0 <= i < t.len() && t[i].0 == s.last().0 {
                let i = choose|i: int| 0 <= i < t.len() && t[i].0 == s.last().0;
                assert(s[i] == t[i]);
            }
        }
        lemma_map_sum_insert(pairs_map(t), s.last().0, s.last().1 as int);
    }
}

/// Find the position of `key` in `entries`, if any entry holds it.
pub fn find_index(entries: &Vec<(u64, i128)>, key: u64) -> (r: Option<usize>)
    ensures
        match r {
            Some(i) => i < entries@.len() && entries@[i as int].0 == key,
            None => forall|i: int| 0 <= i < entries@.len() ==> entries@[i].0 != key,
        },
{
    let mut i: usize = 0;
    while i < entries.len()
        invariant
            i <= entries@.len(),
            forall|j: int| 0 <= j < i ==> entries@[j].0 != key,
        decreases entries@.len() - i,
    {
        if entries[i].0 == key {
            return Some(i);
        }
        i = i + 1;
    }
    None
}

} // verus!
