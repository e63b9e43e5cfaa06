//! Sequences whose elements carry distinct keys, read as finite maps.
//!
//! The trackers and the store keep their records in vectors; these
//! definitions and lemmas relate such a vector to the map from key to
//! record that the contracts speak of.
use vstd::prelude::*;

verus! {

/// No two elements of `s` have the same key.
pub open spec fn unique_keys<A, K>(s: Seq<A>, key: spec_fn(A) -> K) -> bool {
    forall|i: int, j: int|
        #![trigger s[i], s[j]]
        0 <= i < s.len() && 0 <= j < s.len() && i != j ==> key(s[i]) != key(s[j])
}

/// Some element of `s` has key `k`.
pub open spec fn has_key<A, K>(s: Seq<A>, key: spec_fn(A) -> K, k: K) -> bool {
    exists|i: int| #![trigger s[i]] 0 <= i < s.len() && key(s[i]) == k
}

/// An index of an element of `s` with key `k` (meaningful when there is one).
pub open spec fn index_of_key<A, K>(s: Seq<A>, key: spec_fn(A) -> K, k: K) -> int {
    choose|i: int| #![trigger s[i]] 0 <= i < s.len() && key(s[i]) == k
}

/// The map from each key in `s` to the value of the element that carries it.
pub open spec fn keyed_map<A, K, V>(s: Seq<A>, key: spec_fn(A) -> K, val: spec_fn(A) -> V) -> Map<
    K,
    V,
> {
    Map::new(|k: K| has_key(s, key, k), |k: K| val(s[index_of_key(s, key, k)]))
}

pub proof fn lemma_keyed_index<A, K, V>(
    s: Seq<A>,
    key: spec_fn(A) -> K,
    val: spec_fn(A) -> V,
    i: int,
)
    requires
        unique_keys(s, key),
        0 <= i < s.len(),
    ensures
        keyed_map(s, key, val).contains_key(key(s[i])),
        keyed_map(s, key, val)[key(s[i])] == val(s[i]),
        index_of_key(s, key, key(s[i])) == i,
{
    assert(has_key(s, key, key(s[i])));
    let j = index_of_key(s, key, key(s[i]));
    assert(key(s[j]) == key(s[i]));
}

pub proof fn lemma_keyed_empty<A, K, V>(key: spec_fn(A) -> K, val: spec_fn(A) -> V)
    ensures
        unique_keys(Seq::<A>::empty(), key),
        keyed_map(Seq::<A>::empty(), key, val) =~= Map::<K, V>::empty(),
{
}

pub proof fn lemma_keyed_push<A, K, V>(s: Seq<A>, key: spec_fn(A) -> K, val: spec_fn(A) -> V, a: A)
    requires
        unique_keys(s, key),
        !has_key(s, key, key(a)),
    ensures
        unique_keys(s.push(a), key),
        keyed_map(s.push(a), key, val) =~= keyed_map(s, key, val).insert(key(a), val(a)),
{
    let t = s.push(a);
    assert forall|i: int, j: int|
        #![trigger t[i], t[j]]
        0 <= i < t.len() && 0 <= j < t.len() && i != j implies key(t[i]) != key(t[j]) by {
        if i < s.len() && j < s.len() {
            assert(t[i] == s[i] && t[j] == s[j]);
        } else if i < s.len() {
            assert(t[i] == s[i]);
        } else if j < s.len() {
            assert(t[j] == s[j]);
        }
    }
    let m = keyed_map(t, key, val);
    let m0 = keyed_map(s, key, val).insert(key(a), val(a));
    assert forall|k: K| #[trigger] m.contains_key(k) <==> m0.contains_key(k) by {
        if has_key(t, key, k) {
            let i = choose|i: int| #![trigger t[i]] 0 <= i < t.len() && key(t[i]) == k;
            if i < s.len() {
                assert(t[i] == s[i]);
            }
        }
        if k != key(a) && has_key(s, key, k) {
            let i = choose|i: int| #![trigger s[i]] 0 <= i < s.len() && key(s[i]) == k;
            assert(t[i] == s[i]);
        }
        if k == key(a) {
            assert(t[s.len() as int] == a);
        }
    }
    assert forall|k: K| #[trigger] m.contains_key(k) implies m[k] == m0[k] by {
        let i = choose|i: int| #![trigger t[i]] 0 <= i < t.len() && key(t[i]) == k;
        lemma_keyed_index(t, key, val, i);
        if i < s.len() {
            assert(t[i] == s[i]);
            lemma_keyed_index(s, key, val, i);
        }
    }
}

pub proof fn lemma_keyed_update<A, K, V>(
    s: Seq<A>,
    key: spec_fn(A) -> K,
    val: spec_fn(A) -> V,
    i: int,
    a: A,
)
    requires
        unique_keys(s, key),
        0 <= i < s.len(),
        key(a) == key(s[i]),
    ensures
        unique_keys(s.update(i, a), key),
        keyed_map(s.update(i, a), key, val) =~= keyed_map(s, key, val).insert(key(a), val(a)),
{
    let t = s.update(i, a);
    assert forall|p: int, q: int|
        #![trigger t[p], t[q]]
        0 <= p < t.len() && 0 <= q < t.len() && p != q implies key(t[p]) != key(t[q]) by {
        assert(key(t[p]) == key(s[p]));
        assert(key(t[q]) == key(s[q]));
    }
    let m = keyed_map(t, key, val);
    let m0 = keyed_map(s, key, val).insert(key(a), val(a));
    assert forall|k: K| #[trigger] m.contains_key(k) <==> m0.contains_key(k) by {
        if has_key(t, key, k) {
            let j = choose|j: int| #![trigger t[j]] 0 <= j < t.len() && key(t[j]) == k;
            assert(key(t[j]) == key(s[j]));
        }
        if has_key(s, key, k) {
            let j = choose|j: int| #![trigger s[j]] 0 <= j < s.len() && key(s[j]) == k;
            assert(key(t[j]) == key(s[j]));
        }
        if k == key(a) {
            assert(t[i] == a);
        }
    }
    assert forall|k: K| #[trigger] m.contains_key(k) implies m[k] == m0[k] by {
        let j = choose|j: int| #![trigger t[j]] 0 <= j < t.len() && key(t[j]) == k;
        lemma_keyed_index(t, key, val, j);
        if j != i {
            assert(t[j] == s[j]);
            lemma_keyed_index(s, key, val, j);
        }
    }
}

pub proof fn lemma_keyed_remove<A, K, V>(
    s: Seq<A>,
    key: spec_fn(A) -> K,
    val: spec_fn(A) -> V,
    i: int,
)
    requires
        unique_keys(s, key),
        0 <= i < s.len(),
    ensures
        unique_keys(s.remove(i), key),
        keyed_map(s.remove(i), key, val) =~= keyed_map(s, key, val).remove(key(s[i])),
{
    let t = s.remove(i);
    assert forall|p: int, q: int|
        #![trigger t[p], t[q]]
        0 <= p < t.len() && 0 <= q < t.len() && p != q implies key(t[p]) != key(t[q]) by {
        let pp = if p < i { p } else { p + 1 };
        let qq = if q < i { q } else { q + 1 };
        assert(t[p] == s[pp]);
        assert(t[q] == s[qq]);
    }
    let m = keyed_map(t, key, val);
    let m0 = keyed_map(s, key, val).remove(key(s[i]));
    assert forall|k: K| #[trigger] m.contains_key(k) <==> m0.contains_key(k) by {
        if has_key(t, key, k) {
            let j = choose|j: int| #![trigger t[j]] 0 <= j < t.len() && key(t[j]) == k;
            let jj = if j < i { j } else { j + 1 };
            assert(t[j] == s[jj]);
            assert(key(s[jj]) != key(s[i]));
        }
        if has_key(s, key, k) && k != key(s[i]) {
            let j = choose|j: int| #![trigger s[j]] 0 <= j < s.len() && key(s[j]) == k;
            if j < i {
                assert(t[j] == s[j]);
            } else {
                assert(j != i);
                assert(t[j - 1] == s[j]);
            }
        }
    }
    assert forall|k: K| #[trigger] m.contains_key(k) implies m[k] == m0[k] by {
        let j = choose|j: int| #![trigger t[j]] 0 <= j < t.len() && key(t[j]) == k;
        lemma_keyed_index(t, key, val, j);
        let jj = if j < i { j } else { j + 1 };
        assert(t[j] == s[jj]);
        lemma_keyed_index(s, key, val, jj);
    }
}

/// Filtering a prefix one element longer.
pub proof fn lemma_filter_take_step<A>(s: Seq<A>, pred: spec_fn(A) -> bool, i: int)
    requires
        0 <= i < s.len(),
    ensures
        s.take(i + 1).filter(pred) == (if pred(s[i]) {
            s.take(i).filter(pred).push(s[i])
        } else {
            s.take(i).filter(pred)
        }),
{
    reveal(Seq::filter);
    assert(s.take(i + 1).drop_last() =~= s.take(i));
    assert(s.take(i + 1).last() == s[i]);
}

} // verus!
