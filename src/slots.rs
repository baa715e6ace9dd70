//! Ordered key/value sequences: the mathematical model of an insertion
//! ordered map keyed by strings.
use vstd::prelude::*;

verus! {

/// Whether some slot of `s` carries the key `k`.
pub open spec fn has_key<V>(s: Seq<(Seq<char>, V)>, k: Seq<char>) -> bool {
    exists|i: int| 0 <= i < s.len() && (#[trigger] s[i]).0 == k
}

/// The position of the slot that carries `k` (meaningful when `has_key(s, k)`).
pub open spec fn key_index<V>(s: Seq<(Seq<char>, V)>, k: Seq<char>) -> int {
    choose|i: int| 0 <= i < s.len() && (#[trigger] s[i]).0 == k
}

/// No key occurs in two slots.
pub open spec fn keys_unique<V>(s: Seq<(Seq<char>, V)>) -> bool {
    forall|i: int, j: int|
        0 <= i < s.len() && 0 <= j < s.len() && (#[trigger] s[i]).0 == (#[trigger] s[j]).0 ==> i
            == j
}

/// The value stored under `k`, if any.
pub open spec fn lookup<V>(s: Seq<(Seq<char>, V)>, k: Seq<char>) -> Option<V> {
    if has_key(s, k) {
        Some(s[key_index(s, k)].1)
    } else {
        None
    }
}

/// Insertion: a present key keeps its place and takes the new value; an
/// absent key is appended last.
pub open spec fn insert_slot<V>(s: Seq<(Seq<char>, V)>, k: Seq<char>, v: V) -> Seq<(Seq<char>, V)> {
    if has_key(s, k) {
        s.update(key_index(s, k), (k, v))
    } else {
        s.push((k, v))
    }
}

/// Removal by swapping: the slot of `k` takes the last slot, which is then
/// dropped; an absent key leaves the sequence unchanged.
pub open spec fn swap_remove_slot<V>(s: Seq<(Seq<char>, V)>, k: Seq<char>) -> Seq<(Seq<char>, V)> {
    if has_key(s, k) {
        s.update(key_index(s, k), s.last()).drop_last()
    } else {
        s
    }
}

/// The values, in order.
pub open spec fn values_of<V>(s: Seq<(Seq<char>, V)>) -> Seq<V> {
    s.map_values(|p: (Seq<char>, V)| p.1)
}

/// Inserting keeps the keys unique, and afterwards `k` maps to `v` while every
/// other key keeps its value.
pub proof fn lemma_insert_slot<V>(s: Seq<(Seq<char>, V)>, k: Seq<char>, v: V)
    requires
        keys_unique(s),
    ensures
        keys_unique(insert_slot(s, k, v)),
        lookup(insert_slot(s, k, v), k) == Some(v),
        forall|k2: Seq<char>| k2 != k ==> lookup(insert_slot(s, k, v), k2) == lookup(s, k2),
{
    let t = insert_slot(s, k, v);
    if has_key(s, k) {
        let i = key_index(s, k);
        assert(t[i].0 == k);
    } else {
        assert(t[s.len() as int].0 == k);
    }
    assert(has_key(t, k));
    assert forall|k2: Seq<char>| k2 != k implies lookup(t, k2) == lookup(s, k2) by {
        if has_key(s, k2) {
            let j = key_index(s, k2);
            assert(t[j] == s[j]);
            assert(has_key(t, k2));
        }
        if has_key(t, k2) {
            let j = key_index(t, k2);
            assert(s[j] == t[j]);
        }
    }
}

/// Removing keeps the keys unique, and afterwards `k` is absent while every
/// other key keeps its value.
pub proof fn lemma_swap_remove_slot<V>(s: Seq<(Seq<char>, V)>, k: Seq<char>)
    requires
        keys_unique(s),
    ensures
        keys_unique(swap_remove_slot(s, k)),
        lookup(swap_remove_slot(s, k), k) is None,
        forall|k2: Seq<char>| k2 != k ==> lookup(swap_remove_slot(s, k), k2) == lookup(s, k2),
{
    let t = swap_remove_slot(s, k);
    if has_key(s, k) {
        let i = key_index(s, k);
        let n = s.len() - 1;
        assert forall|a: int, b: int|
            0 <= a < t.len() && 0 <= b < t.len() && (#[trigger] t[a]).0 == (#[trigger] t[b]).0
            implies a == b by {
            let sa = if a == i { n } else { a };
            let sb = if b == i { n } else { b };
            assert(t[a] == s[sa]);
            assert(t[b] == s[sb]);
        }
        assert(!has_key(t, k)) by {
            if has_key(t, k) {
                let j = key_index(t, k);
                let sj = if j == i { n } else { j };
                assert(t[j] == s[sj]);
            }
        }
        assert forall|k2: Seq<char>| k2 != k implies lookup(t, k2) == lookup(s, k2) by {
            if has_key(s, k2) {
                let j = key_index(s, k2);
                let tj = if j == n { i } else { j };
                assert(t[tj] == s[j]);
                assert(has_key(t, k2));
                let m = key_index(t, k2);
                let sm = if m == i { n } else { m };
                assert(t[m] == s[sm]);
            }
            if has_key(t, k2) {
                let m = key_index(t, k2);
                let sm = if m == i { n } else { m };
                assert(t[m] == s[sm]);
                assert(has_key(s, k2));
            }
        }
    }
}

} // verus!
