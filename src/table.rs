use vstd::prelude::*;

verus! {

/// No two entries of `s` have the same key.
pub open spec fn keys_unique<T, K>(s: Seq<T>, key: spec_fn(T) -> K) -> bool {
    forall|i: int, j: int|
        0 <= i < s.len() && 0 <= j < s.len() && #[trigger] key(s[i]) == #[trigger] key(s[j])
            ==> i == j
}

/// Some entry of `s` has key `k`.
pub open spec fn has_key<T, K>(s: Seq<T>, key: spec_fn(T) -> K, k: K) -> bool {
    exists|i: int| 0 <= i < s.len() && #[trigger] key(s[i]) == k
}

/// The position of an entry with key `k`.
pub open spec fn index_of<T, K>(s: Seq<T>, key: spec_fn(T) -> K, k: K) -> int {
    choose|i: int| 0 <= i < s.len() && #[trigger] key(s[i]) == k
}

/// A sequence of entries with unique keys, seen as a map from key to value.
pub open spec fn table_view<T, K, V>(s: Seq<T>, key: spec_fn(T) -> K, val: spec_fn(T) -> V) -> Map<
    K,
    V,
> {
    Map::new(|k: K| has_key(s, key, k), |k: K| val(s[index_of(s, key, k)]))
}

pub proof fn lemma_table_index<T, K, V>(
    s: Seq<T>,
    key: spec_fn(T) -> K,
    val: spec_fn(T) -> V,
    i: int,
)
    requires
        keys_unique(s, key),
        0 <= i < s.len(),
    ensures
        table_view(s, key, val).contains_key(key(s[i])),
        table_view(s, key, val)[key(s[i])] == val(s[i]),
        index_of(s, key, key(s[i])) == i,
{
    assert(has_key(s, key, key(s[i])));
    let j = index_of(s, key, key(s[i]));
    assert(key(s[j]) == key(s[i]));
}

pub proof fn lemma_table_update<T, K, V>(
    s: Seq<T>,
    key: spec_fn(T) -> K,
    val: spec_fn(T) -> V,
    i: int,
    x: T,
)
    requires
        keys_unique(s, key),
        0 <= i < s.len(),
        key(x) == key(s[i]),
    ensures
        keys_unique(s.update(i, x), key),
        table_view(s.update(i, x), key, val) =~= table_view(s, key, val).insert(key(x), val(x)),
{
    let t = s.update(i, x);
    assert forall|a: int, b: int|
        0 <= a < t.len() && 0 <= b < t.len() && #[trigger] key(t[a]) == #[trigger] key(t[b]) implies a
        == b by {
        assert(key(t[a]) == key(s[a]));
        assert(key(t[b]) == key(s[b]));
    }
    assert forall|k: K| #[trigger] has_key(t, key, k) == has_key(s, key, k) by {
        if has_key(t, key, k) {
            let a = index_of(t, key, k);
            assert(key(s[a]) == key(t[a]));
        }
        if has_key(s, key, k) {
            let a = index_of(s, key, k);
            assert(key(t[a]) == key(s[a]));
        }
    }
    assert forall|k: K| has_key(t, key, k) implies #[trigger] val(t[index_of(t, key, k)]) == (
    if k == key(x) {
        val(x)
    } else {
        val(s[index_of(s, key, k)])
    }) by {
        let a = index_of(t, key, k);
        lemma_table_index(t, key, val, a);
        if a == i {
        } else {
            assert(key(s[a]) == k);
            lemma_table_index(s, key, val, a);
        }
    }
}

pub proof fn lemma_table_push<T, K, V>(s: Seq<T>, key: spec_fn(T) -> K, val: spec_fn(T) -> V, x: T)
    requires
        keys_unique(s, key),
        !has_key(s, key, key(x)),
    ensures
        keys_unique(s.push(x), key),
        table_view(s.push(x), key, val) =~= table_view(s, key, val).insert(key(x), val(x)),
{
    let t = s.push(x);
    assert forall|a: int, b: int|
        0 <= a < t.len() && 0 <= b < t.len() && #[trigger] key(t[a]) == #[trigger] key(t[b]) implies a
        == b by {
        if a < s.len() && b < s.len() {
            assert(key(s[a]) == key(s[b]));
        } else if a < s.len() {
            assert(key(s[a]) == key(x));
        } else if b < s.len() {
            assert(key(s[b]) == key(x));
        }
    }
    assert forall|k: K| #[trigger] has_key(t, key, k) == (has_key(s, key, k) || k == key(x)) by {
        if has_key(s, key, k) {
            let a = index_of(s, key, k);
            assert(key(t[a]) == key(s[a]));
        }
        if k == key(x) {
            assert(key(t[s.len() as int]) == k);
        }
    }
    assert forall|k: K| has_key(t, key, k) implies #[trigger] val(t[index_of(t, key, k)]) == (
    if k == key(x) {
        val(x)
    } else {
        val(s[index_of(s, key, k)])
    }) by {
        let a = index_of(t, key, k);
        lemma_table_index(t, key, val, a);
        if a < s.len() {
            assert(key(s[a]) == k);
            lemma_table_index(s, key, val, a);
        }
    }
}

pub proof fn lemma_table_remove<T, K, V>(
    s: Seq<T>,
    key: spec_fn(T) -> K,
    val: spec_fn(T) -> V,
    i: int,
)
    requires
        keys_unique(s, key),
        0 <= i < s.len(),
    ensures
        keys_unique(s.remove(i), key),
        table_view(s.remove(i), key, val) =~= table_view(s, key, val).remove(key(s[i])),
{
    let t = s.remove(i);
    assert forall|a: int| 0 <= a < t.len() implies #[trigger] t[a] == if a < i {
        s[a]
    } else {
        s[a + 1]
    } by {}
    assert forall|a: int, b: int|
        0 <= a < t.len() && 0 <= b < t.len() && #[trigger] key(t[a]) == #[trigger] key(t[b]) implies a
        == b by {
        let sa = if a < i {
            a
        } else {
            a + 1
        };
        let sb = if b < i {
            b
        } else {
            b + 1
        };
        assert(key(s[sa]) == key(s[sb]));
    }
    assert forall|k: K| #[trigger] has_key(t, key, k) == (has_key(s, key, k) && k != key(s[i])) by {
        if has_key(t, key, k) {
            let a = index_of(t, key, k);
            let sa = if a < i {
                a
            } else {
                a + 1
            };
            assert(key(s[sa]) == k);
            assert(k != key(s[i]));
        }
        if has_key(s, key, k) && k != key(s[i]) {
            let a = index_of(s, key, k);
            assert(a != i);
            let ta = if a < i {
                a
            } else {
                a - 1
            };
            assert(key(t[ta]) == k);
        }
    }
    assert forall|k: K| has_key(t, key, k) implies #[trigger] val(t[index_of(t, key, k)]) == val(
        s[index_of(s, key, k)],
    ) by {
        let a = index_of(t, key, k);
        lemma_table_index(t, key, val, a);
        let sa = if a < i {
            a
        } else {
            a + 1
        };
        assert(key(s[sa]) == k);
        lemma_table_index(s, key, val, sa);
    }
}

} // verus!
