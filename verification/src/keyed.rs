//! Sequences of keyed entries, read as tables: the first entry under a key
//! is the one that counts.

use vstd::prelude::*;

verus! {

/// The value of the first entry under `key`, if there is one.
pub open spec fn lookup<K, V>(entries: Seq<(K, V)>, key: K) -> Option<V>
    decreases entries.len(),
{
    if entries.len() == 0 {
        None
    } else {
        match lookup(entries.drop_last(), key) {
            Some(v) => Some(v),
            None => if entries.last().0 == key {
                Some(entries.last().1)
            } else {
                None
            },
        }
    }
}

/// The entries that do not stand under `key`, in their order.
pub open spec fn without<K, V>(entries: Seq<(K, V)>, key: K) -> Seq<(K, V)>
    decreases entries.len(),
{
    if entries.len() == 0 {
        entries
    } else if entries.last().0 == key {
        without(entries.drop_last(), key)
    } else {
        without(entries.drop_last(), key).push(entries.last())
    }
}

/// Looking up in a sequence with one more entry at its end.
pub proof fn lemma_lookup_push<K, V>(entries: Seq<(K, V)>, entry: (K, V), key: K)
    ensures
        lookup(entries.push(entry), key) == match lookup(entries, key) {
            Some(v) => Some(v),
            None => if entry.0 == key {
                Some(entry.1)
            } else {
                None
            },
        },
{
    assert(entries.push(entry).drop_last() =~= entries);
}

/// Nothing is found under a key whose entries were taken out.
pub proof fn lemma_lookup_without_same<K, V>(entries: Seq<(K, V)>, key: K)
    ensures
        lookup(without(entries, key), key) is None,
    decreases entries.len(),
{
    if entries.len() > 0 {
        lemma_lookup_without_same(entries.drop_last(), key);
        if entries.last().0 != key {
            lemma_lookup_push(without(entries.drop_last(), key), entries.last(), key);
        }
    }
}

/// Taking out the entries of one key leaves every other key as it was.
pub proof fn lemma_lookup_without_other<K, V>(entries: Seq<(K, V)>, key: K, other: K)
    requires
        other != key,
    ensures
        lookup(without(entries, key), other) == lookup(entries, other),
    decreases entries.len(),
{
    if entries.len() > 0 {
        lemma_lookup_without_other(entries.drop_last(), key, other);
        if entries.last().0 != key {
            lemma_lookup_push(without(entries.drop_last(), key), entries.last(), other);
        }
    }
}

/// What is found among the first entries is what is found among all.
pub proof fn lemma_lookup_prefix<K, V>(entries: Seq<(K, V)>, n: int, key: K)
    requires
        0 <= n <= entries.len(),
        lookup(entries.take(n), key) is Some,
    ensures
        lookup(entries, key) == lookup(entries.take(n), key),
    decreases entries.len() - n,
{
    if n < entries.len() {
        assert(entries.take(n + 1).drop_last() =~= entries.take(n));
        lemma_lookup_prefix(entries, n + 1, key);
    } else {
        assert(entries.take(n) =~= entries);
    }
}

/// How many entries stand under `key`.
pub open spec fn occurrences<K, V>(entries: Seq<(K, V)>, key: K) -> nat
    decreases entries.len(),
{
    if entries.len() == 0 {
        0
    } else if entries.last().0 == key {
        occurrences(entries.drop_last(), key) + 1
    } else {
        occurrences(entries.drop_last(), key)
    }
}

/// Whether no two entries stand under one key.
pub open spec fn unique_keys<K, V>(entries: Seq<(K, V)>) -> bool {
    forall|key: K| #[trigger] occurrences(entries, key) <= 1
}

/// Counting in a sequence with one more entry at its end.
pub proof fn lemma_occurrences_push<K, V>(entries: Seq<(K, V)>, entry: (K, V), key: K)
    ensures
        occurrences(entries.push(entry), key) == occurrences(entries, key) + if entry.0 == key {
            1nat
        } else {
            0nat
        },
{
    assert(entries.push(entry).drop_last() =~= entries);
}

/// Taking out the entries of one key leaves none under it and as many as
/// before under every other key.
pub proof fn lemma_occurrences_without<K, V>(entries: Seq<(K, V)>, key: K, other: K)
    ensures
        occurrences(without(entries, key), other) == if other == key {
            0
        } else {
            occurrences(entries, other)
        },
    decreases entries.len(),
{
    if entries.len() > 0 {
        lemma_occurrences_without(entries.drop_last(), key, other);
        if entries.last().0 != key {
            lemma_occurrences_push(without(entries.drop_last(), key), entries.last(), other);
        }
    }
}

/// Every entry that is left after the entries of one key were taken out
/// was there before.
pub proof fn lemma_without_contained<K, V>(entries: Seq<(K, V)>, key: K)
    ensures
        forall|i: int|
            0 <= i < without(entries, key).len() ==> entries.contains(
                #[trigger] without(entries, key)[i],
            ),
    decreases entries.len(),
{
    if entries.len() > 0 {
        let shorter = entries.drop_last();
        lemma_without_contained(shorter, key);
        assert forall|i: int| 0 <= i < without(entries, key).len() implies entries.contains(
            #[trigger] without(entries, key)[i],
        ) by {
            let left = without(entries, key);
            if i < without(shorter, key).len() {
                let kept = without(shorter, key)[i];
                assert(shorter.contains(kept));
                let j = choose|j: int| 0 <= j < shorter.len() && shorter[j] == kept;
                assert(entries[j] == kept);
                assert(left[i] == kept);
            } else {
                assert(left[i] == entries.last());
                assert(entries[entries.len() - 1] == entries.last());
            }
        }
    }
}

/// A key under which nothing is found stands nowhere.
pub proof fn lemma_absent_occurs_nowhere<K, V>(entries: Seq<(K, V)>, key: K)
    requires
        lookup(entries, key) is None,
    ensures
        occurrences(entries, key) == 0,
    decreases entries.len(),
{
    if entries.len() > 0 {
        lemma_absent_occurs_nowhere(entries.drop_last(), key);
    }
}

/// Where nothing stands under a key, taking its entries out changes nothing.
pub proof fn lemma_without_absent<K, V>(entries: Seq<(K, V)>, key: K)
    requires
        lookup(entries, key) is None,
    ensures
        without(entries, key) == entries,
    decreases entries.len(),
{
    if entries.len() > 0 {
        lemma_without_absent(entries.drop_last(), key);
        assert(entries.drop_last().push(entries.last()) =~= entries);
    }
}

/// Taking out the entries of one key from a sequence with one more entry
/// at its end.
pub proof fn lemma_without_push<K, V>(entries: Seq<(K, V)>, entry: (K, V), key: K)
    ensures
        without(entries.push(entry), key) == if entry.0 == key {
            without(entries, key)
        } else {
            without(entries, key).push(entry)
        },
{
    assert(entries.push(entry).drop_last() =~= entries);
}

} // verus!
