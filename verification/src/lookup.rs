//! First-match lookup in an association sequence, shared by the header map,
//! the query-pair map and the file store.

use vstd::prelude::*;

verus! {

/// The value of the first entry whose key is `key`, or nothing.
pub open spec fn assoc_lookup<K, V>(entries: Seq<(K, V)>, key: K) -> Option<V>
    decreases entries.len(),
{
    if entries.len() == 0 {
        None
    } else if entries[0].0 == key {
        Some(entries[0].1)
    } else {
        assoc_lookup(entries.skip(1), key)
    }
}

/// A first match at index `i` pins the lookup down.
pub proof fn lemma_assoc_lookup_is<K, V>(entries: Seq<(K, V)>, key: K, i: int)
    requires
        0 <= i < entries.len(),
        entries[i].0 == key,
        forall|j: int| 0 <= j < i ==> #[trigger] entries[j].0 != key,
    ensures
        assoc_lookup(entries, key) == Some(entries[i].1),
    decreases entries.len(),
{
    if i > 0 {
        lemma_assoc_lookup_is(entries.skip(1), key, i - 1);
    }
}

/// Without a matching key, the lookup finds nothing.
pub proof fn lemma_assoc_lookup_none<K, V>(entries: Seq<(K, V)>, key: K)
    requires
        forall|j: int| 0 <= j < entries.len() ==> #[trigger] entries[j].0 != key,
    ensures
        assoc_lookup(entries, key) is None,
    decreases entries.len(),
{
    if entries.len() > 0 {
        lemma_assoc_lookup_none(entries.skip(1), key);
    }
}

} // verus!
