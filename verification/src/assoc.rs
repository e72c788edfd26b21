//! Association sequences: the executable collections of this crate are
//! vectors of key-value pairs with pairwise-distinct keys, abstracted in
//! contracts as the finite `Map` they describe.

use vstd::prelude::*;

verus! {

/// True when no key occurs twice in the association sequence.
pub open spec fn unique_keys<K, V>(s: Seq<(K, V)>) -> bool {
    forall|i: int, j: int|
        0 <= i < j < s.len() ==> (#[trigger] s[i]).0 != (#[trigger] s[j]).0
}

/// True when some entry of the association sequence carries key `k`.
pub open spec fn has_key<K, V>(s: Seq<(K, V)>, k: K) -> bool {
    exists|i: int| 0 <= i < s.len() && (#[trigger] s[i]).0 == k
}

/// The finite map described by an association sequence; later entries win.
pub open spec fn assoc_map<K, V>(s: Seq<(K, V)>) -> Map<K, V>
    decreases s.len(),
{
    if s.len() == 0 {
        Map::empty()
    } else {
        assoc_map(s.drop_last()).insert(s.last().0, s.last().1)
    }
}

/// The entries of an association sequence of viewable values, with each
/// value replaced by its mathematical view.
pub open spec fn viewed_pairs<K, V: View>(s: Seq<(K, V)>) -> Seq<(K, V::V)> {
    s.map_values(|p: (K, V)| (p.0, p.1.view()))
}

/// The index of the entry carrying key `k`; meaningful when `has_key` holds
/// and the keys are unique.
pub open spec fn index_of_key<K, V>(s: Seq<(K, V)>, k: K) -> int {
    choose|i: int| 0 <= i < s.len() && (#[trigger] s[i]).0 == k
}

/// With unique keys, the entry found at `i` is the entry `index_of_key`
/// denotes.
pub proof fn lemma_index_of_key_unique<K, V>(s: Seq<(K, V)>, k: K, i: int)
    requires
        unique_keys(s),
        0 <= i < s.len(),
        s[i].0 == k,
    ensures
        index_of_key(s, k) == i,
{
    assert(has_key(s, k));
    let j = index_of_key(s, k);
    assert(0 <= j < s.len() && s[j].0 == k);
    if i < j {
        assert(s[i].0 != s[j].0);
    } else if j < i {
        assert(s[j].0 != s[i].0);
    }
}

pub proof fn lemma_assoc_map_dom<K, V>(s: Seq<(K, V)>)
    ensures
        forall|k: K| #[trigger] assoc_map(s).contains_key(k) <==> has_key(s, k),
    decreases s.len(),
{
    if s.len() == 0 {
    } else {
        lemma_assoc_map_dom(s.drop_last());
        assert forall|k: K| #[trigger] assoc_map(s).contains_key(k) <==> has_key(s, k) by {
            if assoc_map(s).contains_key(k) {
                if k == s.last().0 {
                    assert((#[trigger] s[s.len() - 1]).0 == k);
                } else {
                    assert(assoc_map(s.drop_last()).contains_key(k));
                    assert(has_key(s.drop_last(), k));
                    let i = choose|i: int|
                        0 <= i < s.drop_last().len() && (#[trigger] s.drop_last()[i]).0 == k;
                    assert(s.drop_last()[i] == s[i]);
                    assert((#[trigger] s[i]).0 == k);
                }
            }
            if has_key(s, k) {
                let i = choose|i: int| 0 <= i < s.len() && (#[trigger] s[i]).0 == k;
                if i < s.len() - 1 {
                    assert((#[trigger] s.drop_last()[i]).0 == k);
                    assert(has_key(s.drop_last(), k));
                    assert(assoc_map(s.drop_last()).contains_key(k));
                    assert(assoc_map(s).contains_key(k));
                } else {
                    assert(k == s.last().0);
                    assert(assoc_map(s).contains_key(k));
                }
            }
        }
    }
}

pub proof fn lemma_assoc_map_index<K, V>(s: Seq<(K, V)>, i: int)
    requires
        unique_keys(s),
        0 <= i < s.len(),
    ensures
        assoc_map(s).contains_key(s[i].0),
        assoc_map(s)[s[i].0] == s[i].1,
    decreases s.len(),
{
    if i == s.len() - 1 {
    } else {
        assert(unique_keys(s.drop_last()));
        lemma_assoc_map_index(s.drop_last(), i);
        assert(s.drop_last()[i] == s[i]);
        assert(s.last().0 != s[i].0);
    }
}

/// Updating the entry at `i` in place updates the described map at that
/// entry's key.
pub proof fn lemma_assoc_map_update<K, V>(s: Seq<(K, V)>, i: int, v: V)
    requires
        unique_keys(s),
        0 <= i < s.len(),
    ensures
        assoc_map(s.update(i, (s[i].0, v))) == assoc_map(s).insert(s[i].0, v),
    decreases s.len(),
{
    let k = s[i].0;
    let t = s.update(i, (k, v));
    if i == s.len() - 1 {
        assert(t.drop_last() =~= s.drop_last());
        assert(assoc_map(t) =~= assoc_map(s).insert(k, v));
    } else {
        assert(unique_keys(s.drop_last()));
        lemma_assoc_map_update(s.drop_last(), i, v);
        assert(t.drop_last() =~= s.drop_last().update(i, (k, v)));
        assert(t.last() == s.last());
        assert(s.last().0 != k);
        assert(assoc_map(t) =~= assoc_map(s).insert(k, v));
    }
}

/// Appending an entry inserts its key into the described map.
pub proof fn lemma_assoc_map_push<K, V>(s: Seq<(K, V)>, k: K, v: V)
    ensures
        assoc_map(s.push((k, v))) == assoc_map(s).insert(k, v),
{
    assert(s.push((k, v)).drop_last() =~= s);
}

/// An association sequence with no entry for `k` describes a map without `k`.
pub proof fn lemma_assoc_map_absent<K, V>(s: Seq<(K, V)>, k: K)
    requires
        forall|i: int| 0 <= i < s.len() ==> (#[trigger] s[i]).0 != k,
    ensures
        !assoc_map(s).contains_key(k),
{
    lemma_assoc_map_dom(s);
}

} // verus!
