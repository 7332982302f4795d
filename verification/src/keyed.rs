//! Keyed storage for the channel tables.
//!
//! A table is a vector of `(key, value)` entries with pairwise-distinct keys.
//! The spec functions here read such a vector as a finite map, and the lemmas
//! relate the vector operations the tables use (push, in-place update,
//! swap-removal) to that reading.

use vstd::prelude::*;

verus! {

/// Whether `s` holds an entry with key `k`.
pub open spec fn assoc_has<V>(s: Seq<(u64, V)>, k: u64) -> bool {
    exists|i: int| 0 <= i < s.len() && (#[trigger] s[i]).0 == k
}

/// The position of the entry with key `k` (meaningful only when
/// `assoc_has(s, k)`).
pub open spec fn assoc_index<V>(s: Seq<(u64, V)>, k: u64) -> int {
    choose|i: int| 0 <= i < s.len() && (#[trigger] s[i]).0 == k
}

/// The value stored under key `k` (meaningful only when `assoc_has(s, k)`).
pub open spec fn assoc_get<V>(s: Seq<(u64, V)>, k: u64) -> V {
    s[assoc_index(s, k)].1
}

/// Every key appears in at most one entry.
pub open spec fn assoc_unique<V>(s: Seq<(u64, V)>) -> bool {
    forall|i: int, j: int|
        0 <= i < j < s.len() ==> (#[trigger] s[i]).0 != (#[trigger] s[j]).0
}

/// How `post` reads when exactly the entry under `k` was removed from
/// `pre`: `k` is gone, every other key keeps its value.
pub open spec fn assoc_removed<V>(pre: Seq<(u64, V)>, post: Seq<(u64, V)>, k: u64) -> bool {
    &&& post.len() == pre.len() - 1
    &&& !assoc_has(post, k)
    &&& forall|k2: u64|
        #![trigger assoc_has(post, k2)]
        #![trigger assoc_has(pre, k2)]
        k2 != k ==> assoc_has(post, k2) == assoc_has(pre, k2) && (assoc_has(pre, k2)
            ==> assoc_get(post, k2) == assoc_get(pre, k2))
}

/// How `post` reads when the value `v` was stored under `k` in `pre`
/// (replacing any previous value): `k` now maps to `v`, every other key
/// keeps its value.
pub open spec fn assoc_upserted<V>(pre: Seq<(u64, V)>, post: Seq<(u64, V)>, k: u64, v: V) -> bool {
    &&& post.len() == if assoc_has(pre, k) {
        pre.len()
    } else {
        pre.len() + 1
    }
    &&& assoc_has(post, k)
    &&& assoc_get(post, k) == v
    &&& forall|k2: u64|
        #![trigger assoc_has(post, k2)]
        #![trigger assoc_has(pre, k2)]
        k2 != k ==> assoc_has(post, k2) == assoc_has(pre, k2) && (assoc_has(pre, k2)
            ==> assoc_get(post, k2) == assoc_get(pre, k2))
}

/// With distinct keys, an entry's position is the position `assoc_index`
/// picks, so `assoc_get` reads exactly that entry.
pub proof fn lemma_assoc_at<V>(s: Seq<(u64, V)>, i: int)
    requires
        assoc_unique(s),
        0 <= i < s.len(),
    ensures
        assoc_has(s, s[i].0),
        assoc_index(s, s[i].0) == i,
        assoc_get(s, s[i].0) == s[i].1,
{
    assert(assoc_has(s, s[i].0));
    let j = assoc_index(s, s[i].0);
    if i < j {
        assert(s[i].0 != s[j].0);
    } else if j < i {
        assert(s[j].0 != s[i].0);
    }
}

/// Appending an entry under a fresh key leaves every other key's entry in
/// place.
pub proof fn lemma_assoc_push<V>(s: Seq<(u64, V)>, k: u64, v: V)
    requires
        assoc_unique(s),
        !assoc_has(s, k),
    ensures
        assoc_unique(s.push((k, v))),
        assoc_has(s.push((k, v)), k),
        assoc_get(s.push((k, v)), k) == v,
        forall|k2: u64| k2 != k ==> assoc_has(s.push((k, v)), k2) == assoc_has(s, k2),
        forall|k2: u64|
            k2 != k && assoc_has(s, k2) ==> assoc_get(s.push((k, v)), k2) == assoc_get(s, k2),
{
    let t = s.push((k, v));
    assert forall|i: int, j: int| 0 <= i < j < t.len() implies (#[trigger] t[i]).0 != (
    #[trigger] t[j]).0 by {
        if j < s.len() {
            assert(s[i].0 != s[j].0);
        } else {
            assert(t[j] == (k, v));
            assert(t[i] == s[i]);
            assert(s[i].0 == k ==> assoc_has(s, k));
        }
    }
    assert(t[s.len() as int] == (k, v));
    lemma_assoc_at(t, s.len() as int);
    assert forall|k2: u64| k2 != k implies assoc_has(t, k2) == assoc_has(s, k2) by {
        if assoc_has(t, k2) {
            let i = assoc_index(t, k2);
            assert(t[i] == s[i]);
            assert(assoc_has(s, k2));
        }
        if assoc_has(s, k2) {
            let i = assoc_index(s, k2);
            assert(t[i] == s[i]);
            assert(assoc_has(t, k2));
        }
    }
    assert forall|k2: u64| k2 != k && assoc_has(s, k2) implies assoc_get(t, k2) == assoc_get(
        s,
        k2,
    ) by {
        let i = assoc_index(s, k2);
        assert(t[i] == s[i]);
        lemma_assoc_at(s, i);
        lemma_assoc_at(t, i);
    }
}

/// Replacing the value at position `i` changes that entry's key and no
/// other.
pub proof fn lemma_assoc_update<V>(s: Seq<(u64, V)>, i: int, v: V)
    requires
        assoc_unique(s),
        0 <= i < s.len(),
    ensures
        assoc_unique(s.update(i, (s[i].0, v))),
        assoc_has(s.update(i, (s[i].0, v)), s[i].0),
        assoc_get(s.update(i, (s[i].0, v)), s[i].0) == v,
        forall|k2: u64|
            k2 != s[i].0 ==> assoc_has(s.update(i, (s[i].0, v)), k2) == assoc_has(s, k2),
        forall|k2: u64|
            k2 != s[i].0 && assoc_has(s, k2) ==> assoc_get(s.update(i, (s[i].0, v)), k2)
                == assoc_get(s, k2),
{
    let t = s.update(i, (s[i].0, v));
    assert forall|i1: int, j1: int| 0 <= i1 < j1 < t.len() implies (#[trigger] t[i1]).0 != (
    #[trigger] t[j1]).0 by {
        assert(t[i1].0 == s[i1].0);
        assert(t[j1].0 == s[j1].0);
        assert(s[i1].0 != s[j1].0);
    }
    lemma_assoc_at(t, i);
    assert forall|k2: u64| k2 != s[i].0 implies assoc_has(t, k2) == assoc_has(s, k2) by {
        if assoc_has(t, k2) {
            let j = assoc_index(t, k2);
            assert(s[j].0 == t[j].0);
            assert(assoc_has(s, k2));
        }
        if assoc_has(s, k2) {
            let j = assoc_index(s, k2);
            assert(t[j].0 == s[j].0);
            assert(assoc_has(t, k2));
        }
    }
    assert forall|k2: u64| k2 != s[i].0 && assoc_has(s, k2) implies assoc_get(t, k2) == assoc_get(
        s,
        k2,
    ) by {
        let j = assoc_index(s, k2);
        lemma_assoc_at(s, j);
        assert(t[j] == s[j]);
        lemma_assoc_at(t, j);
    }
}

/// Swap-removing position `i` (move the last entry into the hole, then drop
/// the tail) removes exactly that entry's key.
pub proof fn lemma_assoc_swap_remove<V>(s: Seq<(u64, V)>, i: int)
    requires
        assoc_unique(s),
        0 <= i < s.len(),
    ensures
        assoc_unique(s.update(i, s.last()).drop_last()),
        !assoc_has(s.update(i, s.last()).drop_last(), s[i].0),
        forall|k2: u64|
            k2 != s[i].0 ==> assoc_has(s.update(i, s.last()).drop_last(), k2) == assoc_has(s, k2),
        forall|k2: u64|
            k2 != s[i].0 && assoc_has(s, k2) ==> assoc_get(s.update(i, s.last()).drop_last(), k2)
                == assoc_get(s, k2),
{
    let n = s.len() as int;
    let t = s.update(i, s.last()).drop_last();
    assert(t.len() == n - 1);
    assert forall|j: int| 0 <= j < n - 1 implies #[trigger] t[j] == (if j == i {
        s[n - 1]
    } else {
        s[j]
    }) by {}
    assert forall|i1: int, j1: int| 0 <= i1 < j1 < t.len() implies (#[trigger] t[i1]).0 != (
    #[trigger] t[j1]).0 by {
        let a = if i1 == i { n - 1 } else { i1 };
        let b = if j1 == i { n - 1 } else { j1 };
        assert(t[i1] == s[a]);
        assert(t[j1] == s[b]);
        assert(a != b);
        if a < b {
            assert(s[a].0 != s[b].0);
        } else {
            assert(s[b].0 != s[a].0);
        }
    }
    assert forall|j: int| 0 <= j < n - 1 implies (#[trigger] t[j]).0 != s[i].0 by {
        if j == i {
            assert(t[j] == s[n - 1]);
            if i < n - 1 {
                assert(s[i].0 != s[n - 1].0);
            }
        } else {
            assert(t[j] == s[j]);
            if j < i {
                assert(s[j].0 != s[i].0);
            } else {
                assert(s[i].0 != s[j].0);
            }
        }
    }
    assert forall|k2: u64| k2 != s[i].0 implies assoc_has(t, k2) == assoc_has(s, k2) by {
        if assoc_has(t, k2) {
            let j = assoc_index(t, k2);
            if j == i {
                assert(t[j] == s[n - 1]);
                assert(assoc_has(s, k2));
            } else {
                assert(t[j] == s[j]);
                assert(assoc_has(s, k2));
            }
        }
        if assoc_has(s, k2) {
            let j = assoc_index(s, k2);
            assert(s[j].0 == k2);
            if j == n - 1 {
                if i < n - 1 {
                    assert(t[i] == s[n - 1]);
                    assert(assoc_has(t, k2));
                } else {
                    assert(j == i);
                }
            } else if j == i {
                assert(k2 == s[i].0);
            } else {
                assert(t[j] == s[j]);
                assert(assoc_has(t, k2));
            }
        }
    }
    assert forall|k2: u64| k2 != s[i].0 && assoc_has(s, k2) implies assoc_get(t, k2) == assoc_get(
        s,
        k2,
    ) by {
        let j = assoc_index(s, k2);
        lemma_assoc_at(s, j);
        if j == n - 1 {
            assert(j != i);
            assert(i < n - 1);
            assert(t[i] == s[n - 1]);
            lemma_assoc_at(t, i);
        } else if j != i {
            assert(t[j] == s[j]);
            lemma_assoc_at(t, j);
        }
    }
}

/// Find the position of the entry with key `k`.
pub fn assoc_find<V>(s: &Vec<(u64, V)>, k: u64) -> (r: Option<usize>)
    ensures
        r matches Some(i) ==> i < s@.len() && s@[i as int].0 == k,
        r is Some <==> assoc_has(s@, k),
{
    let n = s.len();
    let mut i: usize = 0;
    while i < n
        invariant
            n == s@.len(),
            i <= n,
            forall|j: int| 0 <= j < i ==> (#[trigger] s@[j]).0 != k,
        decreases n - i,
    {
        if s[i].0 == k {
            return Some(i);
        }
        i += 1;
    }
    None
}

} // verus!
