//! Vectors of records with distinct keys, viewed as maps from key to record.
use vstd::prelude::*;

verus! {

/// The map from key to record of a sequence of records; a later record
/// replaces an earlier one with the same key.
pub open spec fn map_of<K, V>(s: Seq<V>, key: spec_fn(V) -> K) -> Map<K, V>
    decreases s.len(),
{
    if s.len() == 0 {
        Map::empty()
    } else {
        map_of(s.drop_last(), key).insert(key(s.last()), s.last())
    }
}

/// No two records share a key.
pub open spec fn unique_keys<K, V>(s: Seq<V>, key: spec_fn(V) -> K) -> bool {
    forall|i: int, j: int| 0 <= i < s.len() && 0 <= j < s.len() && i != j ==> key(#[trigger] s[i]) != key(#[trigger] s[j])
}

/// A key is in the map exactly when some record has it; with distinct keys
/// the map holds that record.
pub proof fn lemma_map_of_index<K, V>(s: Seq<V>, key: spec_fn(V) -> K, k: K)
    ensures
        map_of(s, key).contains_key(k) <==> exists|i: int| 0 <= i < s.len() && key(s[i]) == k,
        unique_keys(s, key) ==> forall|i: int| 0 <= i < s.len() && key(s[i]) == k ==> map_of(s, key)[k] == s[i],
    decreases s.len(),
{
    if s.len() > 0 {
        let p = s.drop_last();
        lemma_map_of_index(p, key, k);
        if exists|i: int| 0 <= i < p.len() && key(p[i]) == k {
            let i = choose|i: int| 0 <= i < p.len() && key(p[i]) == k;
            assert(s[i] == p[i]);
        }
        if key(s.last()) == k {
            assert(key(s[s.len() - 1]) == k);
        }
        if exists|i: int| 0 <= i < s.len() && key(s[i]) == k {
            let i = choose|i: int| 0 <= i < s.len() && key(s[i]) == k;
            if i < s.len() - 1 {
                assert(p[i] == s[i]);
            }
        }
        if unique_keys(s, key) {
            assert(unique_keys(p, key)) by {
                assert forall|a: int, b: int| 0 <= a < p.len() && 0 <= b < p.len() && a != b implies key(#[trigger] p[a]) != key(#[trigger] p[b]) by {
                    assert(p[a] == s[a] && p[b] == s[b]);
                }
            }
            assert forall|i: int| 0 <= i < s.len() && key(s[i]) == k implies map_of(s, key)[k] == s[i] by {
                if i < s.len() - 1 {
                    assert(p[i] == s[i]);
                    assert(key(s[i]) != key(s[s.len() - 1]));
                }
            }
        }
    }
}

/// Appending a record with a new key adds it to the map and keeps keys distinct.
pub proof fn lemma_map_of_push<K, V>(s: Seq<V>, key: spec_fn(V) -> K, v: V)
    requires
        unique_keys(s, key),
        !map_of(s, key).contains_key(key(v)),
    ensures
        map_of(s.push(v), key) == map_of(s, key).insert(key(v), v),
        unique_keys(s.push(v), key),
{
    assert(s.push(v).drop_last() =~= s);
    lemma_map_of_index(s, key, key(v));
    let t = s.push(v);
    assert forall|a: int, b: int| 0 <= a < t.len() && 0 <= b < t.len() && a != b implies key(#[trigger] t[a]) != key(#[trigger] t[b]) by {
        if a < s.len() && b < s.len() {
            assert(t[a] == s[a] && t[b] == s[b]);
        } else if a < s.len() {
            assert(t[a] == s[a]);
        } else {
            assert(t[b] == s[b]);
        }
    }
}

/// Replacing a record by one with the same key replaces it in the map.
pub proof fn lemma_map_of_update<K, V>(s: Seq<V>, key: spec_fn(V) -> K, i: int, v: V)
    requires
        unique_keys(s, key),
        0 <= i < s.len(),
        key(v) == key(s[i]),
    ensures
        map_of(s.update(i, v), key) == map_of(s, key).insert(key(v), v),
        unique_keys(s.update(i, v), key),
    decreases s.len(),
{
    let t = s.update(i, v);
    assert forall|a: int, b: int| 0 <= a < t.len() && 0 <= b < t.len() && a != b implies key(#[trigger] t[a]) != key(#[trigger] t[b]) by {
        assert(key(t[a]) == key(s[a]));
        assert(key(t[b]) == key(s[b]));
    }
    let p = s.drop_last();
    assert(unique_keys(p, key)) by {
        assert forall|a: int, b: int| 0 <= a < p.len() && 0 <= b < p.len() && a != b implies key(#[trigger] p[a]) != key(#[trigger] p[b]) by {
            assert(p[a] == s[a] && p[b] == s[b]);
        }
    }
    if i == s.len() - 1 {
        assert(t.drop_last() =~= p);
        lemma_map_of_index(p, key, key(v));
        assert(!map_of(p, key).contains_key(key(v))) by {
            if map_of(p, key).contains_key(key(v)) {
                let j = choose|j: int| 0 <= j < p.len() && key(p[j]) == key(v);
                assert(p[j] == s[j]);
            }
        }
        assert(map_of(t, key) =~= map_of(s, key).insert(key(v), v));
    } else {
        assert(t.drop_last() =~= p.update(i, v));
        assert(p[i] == s[i]);
        lemma_map_of_update(p, key, i, v);
        assert(key(s.last()) != key(v)) by {
            assert(key(s[s.len() - 1]) != key(s[i]));
        }
        assert(t.last() == s.last());
        assert(map_of(t, key) =~= map_of(s, key).insert(key(v), v));
    }
}

/// Removing a record removes its key from the map and keeps keys distinct.
pub proof fn lemma_map_of_remove<K, V>(s: Seq<V>, key: spec_fn(V) -> K, i: int)
    requires
        unique_keys(s, key),
        0 <= i < s.len(),
    ensures
        map_of(s.remove(i), key) == map_of(s, key).remove(key(s[i])),
        unique_keys(s.remove(i), key),
    decreases s.len(),
{
    let t = s.remove(i);
    assert forall|a: int, b: int| 0 <= a < t.len() && 0 <= b < t.len() && a != b implies key(#[trigger] t[a]) != key(#[trigger] t[b]) by {
        let a2 = if a < i { a } else { a + 1 };
        let b2 = if b < i { b } else { b + 1 };
        assert(t[a] == s[a2] && t[b] == s[b2]);
    }
    let p = s.drop_last();
    assert(unique_keys(p, key)) by {
        assert forall|a: int, b: int| 0 <= a < p.len() && 0 <= b < p.len() && a != b implies key(#[trigger] p[a]) != key(#[trigger] p[b]) by {
            assert(p[a] == s[a] && p[b] == s[b]);
        }
    }
    lemma_map_of_index(p, key, key(s.last()));
    assert(!map_of(p, key).contains_key(key(s.last()))) by {
        if map_of(p, key).contains_key(key(s.last())) {
            let j = choose|j: int| 0 <= j < p.len() && key(p[j]) == key(s.last());
            assert(p[j] == s[j]);
            assert(key(s[j]) != key(s[s.len() - 1]));
        }
    }
    if i == s.len() - 1 {
        assert(t =~= p);
        assert(map_of(t, key) =~= map_of(s, key).remove(key(s[i])));
    } else {
        assert(t.drop_last() =~= p.remove(i));
        assert(t.last() == s.last());
        assert(p[i] == s[i]);
        lemma_map_of_remove(p, key, i);
        assert(key(s[i]) != key(s.last())) by {
            assert(key(s[i]) != key(s[s.len() - 1]));
        }
        assert(map_of(t, key) =~= map_of(s, key).remove(key(s[i])));
    }
}

} // verus!
