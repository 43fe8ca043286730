//! Association lists of string-keyed pairs, and the finite map each one
//! denotes. The response types hold their entries as vectors of pairs with
//! pairwise-distinct keys; contracts speak about the `Map` view built here.

use vstd::prelude::*;

verus! {

/// The finite map denoted by a sequence of key/value pairs. A later pair
/// with the same key overrides an earlier one, as repeated insertion would.
pub open spec fn assoc_map<V>(s: Seq<(Seq<char>, V)>) -> Map<Seq<char>, V>
    decreases s.len(),
{
    if s.len() == 0 {
        Map::empty()
    } else {
        assoc_map(s.drop_last()).insert(s.last().0, s.last().1)
    }
}

/// No two pairs of `s` share a key.
pub open spec fn assoc_keys_unique<V>(s: Seq<(Seq<char>, V)>) -> bool {
    forall|i: int, j: int| 0 <= i < j < s.len() ==> s[i].0 != s[j].0
}

/// Every listed key is in the map.
pub proof fn lemma_assoc_map_contains<V>(s: Seq<(Seq<char>, V)>, i: int)
    requires
        0 <= i < s.len(),
    ensures
        assoc_map(s).contains_key(s[i].0),
    decreases s.len(),
{
    if i < s.len() - 1 {
        lemma_assoc_map_contains(s.drop_last(), i);
    }
}

/// A key matching no pair is not in the map.
pub proof fn lemma_assoc_map_absent<V>(s: Seq<(Seq<char>, V)>, k: Seq<char>)
    requires
        forall|i: int| 0 <= i < s.len() ==> s[i].0 != k,
    ensures
        !assoc_map(s).contains_key(k),
    decreases s.len(),
{
    if s.len() > 0 {
        lemma_assoc_map_absent(s.drop_last(), k);
    }
}

/// With pairwise-distinct keys, each pair gives its key's value in the map.
pub proof fn lemma_assoc_map_index<V>(s: Seq<(Seq<char>, V)>, i: int)
    requires
        assoc_keys_unique(s),
        0 <= i < s.len(),
    ensures
        assoc_map(s).contains_key(s[i].0),
        assoc_map(s)[s[i].0] == s[i].1,
    decreases s.len(),
{
    lemma_assoc_map_contains(s, i);
    if i < s.len() - 1 {
        assert(assoc_keys_unique(s.drop_last()));
        lemma_assoc_map_index(s.drop_last(), i);
    }
}

/// Appending a fresh pair inserts its key into the map.
pub proof fn lemma_assoc_map_push<V>(s: Seq<(Seq<char>, V)>, k: Seq<char>, v: V)
    ensures
        assoc_map(s.push((k, v))) == assoc_map(s).insert(k, v),
{
    assert(s.push((k, v)).drop_last() =~= s);
}

/// Overwriting the pair that holds a key re-inserts that key into the map.
pub proof fn lemma_assoc_map_update<V>(s: Seq<(Seq<char>, V)>, i: int, v: V)
    requires
        assoc_keys_unique(s),
        0 <= i < s.len(),
    ensures
        assoc_map(s.update(i, (s[i].0, v))) == assoc_map(s).insert(s[i].0, v),
    decreases s.len(),
{
    let t = s.update(i, (s[i].0, v));
    if i == s.len() - 1 {
        assert(t.drop_last() =~= s.drop_last());
    } else {
        assert(t.drop_last() =~= s.drop_last().update(i, (s[i].0, v)));
        assert(assoc_keys_unique(s.drop_last()));
        lemma_assoc_map_update(s.drop_last(), i, v);
        assert(s.last().0 != s[i].0);
        assert(assoc_map(t) =~= assoc_map(s).insert(s[i].0, v));
    }
}

/// Updating a pair in place keeps the keys pairwise distinct.
pub proof fn lemma_assoc_unique_update<V>(s: Seq<(Seq<char>, V)>, i: int, v: V)
    requires
        assoc_keys_unique(s),
        0 <= i < s.len(),
    ensures
        assoc_keys_unique(s.update(i, (s[i].0, v))),
{
}

} // verus!
