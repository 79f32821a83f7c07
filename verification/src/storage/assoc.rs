//! Lists of pairs read as maps: each key once, in the order in which the
//! keys came.

use crate::storage::text::{first_index, lemma_first_index, lemma_first_index_is};
use vstd::prelude::*;

verus! {

/// The keys of a list of pairs.
pub open spec fn keys<K, V>(pairs: Seq<(K, V)>) -> Seq<K> {
    pairs.map_values(|p: (K, V)| p.0)
}

/// The value of a key, if the list has the key.
pub open spec fn value_at<K, V>(pairs: Seq<(K, V)>, key: K) -> Option<V> {
    let p = first_index(keys(pairs), key);
    if p < pairs.len() {
        Some(pairs[p].1)
    } else {
        None
    }
}

/// The list after a value was set for a key: in place where the key was
/// there, at the end where it was not.
pub open spec fn with_value<K, V>(pairs: Seq<(K, V)>, key: K, value: V) -> Seq<(K, V)> {
    let p = first_index(keys(pairs), key);
    if p < pairs.len() {
        pairs.update(p, (key, value))
    } else {
        pairs.push((key, value))
    }
}

/// The list without a key.
pub open spec fn without<K, V>(pairs: Seq<(K, V)>, key: K) -> Seq<(K, V)> {
    let p = first_index(keys(pairs), key);
    if p < pairs.len() {
        pairs.remove(p)
    } else {
        pairs
    }
}

/// Setting a value keeps the keys distinct.
pub proof fn lemma_with_value_distinct<K, V>(pairs: Seq<(K, V)>, key: K, value: V)
    requires
        keys(pairs).no_duplicates(),
    ensures
        keys(with_value(pairs, key, value)).no_duplicates(),
{
    let ks = keys(pairs);
    lemma_first_index(ks, key);
    let p = first_index(ks, key);
    let after = keys(with_value(pairs, key, value));
    if p < pairs.len() {
        assert(after =~= ks);
    } else {
        assert(after =~= ks.push(key));
        assert forall|i: int, j: int| 0 <= i < after.len() && 0 <= j < after.len() && i
            != j implies after[i] != after[j] by {
            if i < ks.len() && j < ks.len() {
            } else if i < ks.len() {
                assert(ks[i] != key);
            } else {
                assert(ks[j] != key);
            }
        }
    }
}

/// The value that was set for a key is the value of the key.
pub proof fn lemma_with_value_same<K, V>(pairs: Seq<(K, V)>, key: K, value: V)
    ensures
        value_at(with_value(pairs, key, value), key) == Some(value),
{
    let ks = keys(pairs);
    lemma_first_index(ks, key);
    let p = first_index(ks, key);
    let after = with_value(pairs, key, value);
    assert forall|k: int| 0 <= k < p implies #[trigger] keys(after)[k] != key by {
        assert(keys(after)[k] == ks[k]);
    }
    lemma_first_index_is(keys(after), key, p);
}

/// Setting a value for one key changes nothing for another.
pub proof fn lemma_with_value_other<K, V>(pairs: Seq<(K, V)>, key: K, value: V, other: K)
    requires
        other != key,
    ensures
        value_at(with_value(pairs, key, value), other) == value_at(pairs, other),
{
    let ks = keys(pairs);
    lemma_first_index(ks, key);
    lemma_first_index(ks, other);
    let p = first_index(ks, key);
    let q = first_index(ks, other);
    let after = with_value(pairs, key, value);
    let after_keys = keys(after);
    if q < pairs.len() {
        assert(after[q] == pairs[q]);
        assert forall|k: int| 0 <= k < q implies #[trigger] after_keys[k] != other by {
            if k != p {
                assert(after_keys[k] == ks[k]);
            }
        }
        lemma_first_index_is(after_keys, other, q);
    } else {
        assert forall|k: int| 0 <= k < after_keys.len() implies #[trigger] after_keys[k]
            != other by {
            if k != p && k < ks.len() {
                assert(after_keys[k] == ks[k]);
            }
        }
        lemma_first_index_is(after_keys, other, after_keys.len() as int);
    }
}

/// Taking a key out keeps the keys distinct, leaves the key without a
/// value and changes nothing for another key.
pub proof fn lemma_without<K, V>(pairs: Seq<(K, V)>, key: K, other: K)
    requires
        keys(pairs).no_duplicates(),
    ensures
        keys(without(pairs, key)).no_duplicates(),
        value_at(without(pairs, key), key) is None,
        other != key ==> value_at(without(pairs, key), other) == value_at(pairs, other),
{
    let ks = keys(pairs);
    lemma_first_index(ks, key);
    lemma_first_index(ks, other);
    let p = first_index(ks, key);
    let q = first_index(ks, other);
    let after = without(pairs, key);
    let after_keys = keys(after);
    if p < pairs.len() {
        assert(after_keys =~= ks.remove(p));
        assert forall|k: int| 0 <= k < after_keys.len() implies #[trigger] after_keys[k]
            != key by {
            if k < p {
                assert(after_keys[k] == ks[k]);
            } else {
                assert(after_keys[k] == ks[k + 1]);
            }
        }
        lemma_first_index_is(after_keys, key, after_keys.len() as int);
        if other != key {
            if q < pairs.len() {
                let q2 = if q < p {
                    q
                } else {
                    q - 1
                };
                assert(after[q2] == pairs[q]);
                assert forall|k: int| 0 <= k < q2 implies #[trigger] after_keys[k] != other by {
                    if k < p {
                        assert(after_keys[k] == ks[k]);
                    } else {
                        assert(after_keys[k] == ks[k + 1]);
                    }
                }
                lemma_first_index_is(after_keys, other, q2);
            } else {
                assert forall|k: int| 0 <= k < after_keys.len() implies #[trigger] after_keys[k]
                    != other by {
                    if k < p {
                        assert(after_keys[k] == ks[k]);
                    } else {
                        assert(after_keys[k] == ks[k + 1]);
                    }
                }
                lemma_first_index_is(after_keys, other, after_keys.len() as int);
            }
        }
    }
}

} // verus!
