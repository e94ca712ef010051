//! String-keyed maps held as vectors of `(key, value)` pairs.
//!
//! The keys of a well-formed list are pairwise distinct; the list then
//! denotes the map from each key's characters to its value.
use vstd::prelude::*;

use crate::text::str_eq;

verus! {

/// No key occurs twice.
pub open spec fn keys_unique<V>(s: Seq<(String, V)>) -> bool {
    forall|i: int, j: int|
        0 <= i < s.len() && 0 <= j < s.len() && i != j ==> (#[trigger] s[i]).0@ != (#[trigger] s[j]).0@
}

/// Some pair has key `k`.
pub open spec fn has_key<V>(s: Seq<(String, V)>, k: Seq<char>) -> bool {
    exists|i: int| 0 <= i < s.len() && (#[trigger] s[i]).0@ == k
}

/// The position of key `k` (meaningful when `has_key(s, k)`).
pub open spec fn key_index<V>(s: Seq<(String, V)>, k: Seq<char>) -> int {
    choose|i: int| 0 <= i < s.len() && (#[trigger] s[i]).0@ == k
}

/// The map a well-formed list denotes.
pub open spec fn assoc_view<V>(s: Seq<(String, V)>) -> Map<Seq<char>, V> {
    Map::new(|k: Seq<char>| has_key(s, k), |k: Seq<char>| s[key_index(s, k)].1)
}

/// In a well-formed list, the pair at `i` is the one the map reads for its key.
pub proof fn lemma_view_at<V>(s: Seq<(String, V)>, i: int)
    requires
        keys_unique(s),
        0 <= i < s.len(),
    ensures
        assoc_view(s).dom().contains(s[i].0@),
        assoc_view(s)[s[i].0@] == s[i].1,
        key_index(s, s[i].0@) == i,
{
    assert(has_key(s, s[i].0@));
}

/// The position of `key` in `v`, if present.
pub fn assoc_find<V>(v: &Vec<(String, V)>, key: &str) -> (r: Option<usize>)
    ensures
        r is None <==> !has_key(v@, key@),
        r matches Some(i) ==> i < v@.len() && v@[i as int].0@ == key@,
{
    let mut i: usize = 0;
    while i < v.len()
        invariant
            i <= v@.len(),
            forall|j: int| 0 <= j < i ==> (#[trigger] v@[j]).0@ != key@,
        decreases v@.len() - i,
    {
        if str_eq(v[i].0.as_str(), key) {
            return Some(i);
        }
        i += 1;
    }
    None
}

/// The value stored under `key`.
pub fn assoc_get<'a, V>(v: &'a Vec<(String, V)>, key: &str) -> (r: Option<&'a V>)
    requires
        keys_unique(v@),
    ensures
        r is None <==> !assoc_view(v@).dom().contains(key@),
        r matches Some(x) ==> *x == assoc_view(v@)[key@],
{
    match assoc_find(v, key) {
        Some(i) => {
            proof {
                lemma_view_at(v@, i as int);
            }
            Some(&v[i].1)
        },
        None => None,
    }
}

/// Stores `val` under `key`, replacing any previous value.
pub fn assoc_insert<V>(v: &mut Vec<(String, V)>, key: String, val: V)
    requires
        keys_unique(old(v)@),
    ensures
        keys_unique(final(v)@),
        assoc_view(final(v)@) == assoc_view(old(v)@).insert(key@, val),
        final(v)@.len() == old(v)@.len() + (if has_key(old(v)@, key@) {
            0int
        } else {
            1int
        }),
{
    let ghost old_v = v@;
    let ghost k = key@;
    match assoc_find(v, key.as_str()) {
        Some(i) => {
            v.set(i, (key, val));
            proof {
                let nv = v@;
                assert(nv == old_v.update(i as int, (nv[i as int].0, val)));
                assert(keys_unique(nv)) by {
                    assert forall|a: int, b: int|
                        0 <= a < nv.len() && 0 <= b < nv.len() && a != b implies (#[trigger] nv[a]).0@
                        != (#[trigger] nv[b]).0@ by {
                        assert(old_v[a].0@ != old_v[b].0@);
                    }
                }
                assert forall|q: Seq<char>| #![auto]
                    assoc_view(nv).dom().contains(q) == assoc_view(old_v).insert(k, val).dom().contains(q)
                    by {
                    if q == k {
                        assert(has_key(nv, q));
                    } else if has_key(old_v, q) {
                        let j = key_index(old_v, q);
                        assert(nv[j].0@ == q);
                    } else if has_key(nv, q) {
                        let j = key_index(nv, q);
                        assert(old_v[j].0@ == q);
                    }
                }
                assert forall|q: Seq<char>| #![auto] assoc_view(nv).dom().contains(q) implies
                    assoc_view(nv)[q] == assoc_view(old_v).insert(k, val)[q] by {
                    let j = key_index(nv, q);
                    lemma_view_at(nv, j);
                    if q != k {
                        lemma_view_at(old_v, j);
                    }
                }
                assert(assoc_view(nv) =~= assoc_view(old_v).insert(k, val));
            }
        },
        None => {
            v.push((key, val));
            proof {
                let nv = v@;
                let n = old_v.len() as int;
                assert(keys_unique(nv)) by {
                    assert forall|a: int, b: int|
                        0 <= a < nv.len() && 0 <= b < nv.len() && a != b implies (#[trigger] nv[a]).0@
                        != (#[trigger] nv[b]).0@ by {
                        if a == n {
                            assert(old_v[b] == nv[b]);
                        } else if b == n {
                            assert(old_v[a] == nv[a]);
                        } else {
                            assert(old_v[a] == nv[a] && old_v[b] == nv[b]);
                        }
                    }
                }
                assert forall|q: Seq<char>| #![auto]
                    assoc_view(nv).dom().contains(q) == assoc_view(old_v).insert(k, val).dom().contains(q)
                    by {
                    if q == k {
                        assert(nv[n].0@ == q);
                    } else if has_key(old_v, q) {
                        let j = key_index(old_v, q);
                        assert(nv[j] == old_v[j]);
                    } else if has_key(nv, q) {
                        let j = key_index(nv, q);
                        assert(old_v[j] == nv[j]);
                    }
                }
                assert forall|q: Seq<char>| #![auto] assoc_view(nv).dom().contains(q) implies
                    assoc_view(nv)[q] == assoc_view(old_v).insert(k, val)[q] by {
                    let j = key_index(nv, q);
                    lemma_view_at(nv, j);
                    if q != k {
                        assert(nv[j] == old_v[j]);
                        lemma_view_at(old_v, j);
                    }
                }
                assert(assoc_view(nv) =~= assoc_view(old_v).insert(k, val));
            }
        },
    }
}

/// Removes `key`, returning its value if it was present.
pub fn assoc_remove<V>(v: &mut Vec<(String, V)>, key: &str) -> (r: Option<V>)
    requires
        keys_unique(old(v)@),
    ensures
        keys_unique(final(v)@),
        assoc_view(final(v)@) == assoc_view(old(v)@).remove(key@),
        r is None <==> !assoc_view(old(v)@).dom().contains(key@),
        r matches Some(x) ==> x == assoc_view(old(v)@)[key@],
{
    let ghost old_v = v@;
    let ghost k = key@;
    match assoc_find(v, key) {
        Some(i) => {
            proof {
                lemma_view_at(old_v, i as int);
            }
            let (_, val) = v.remove(i);
            proof {
                let nv = v@;
                assert(nv =~= old_v.remove(i as int));
                assert(keys_unique(nv)) by {
                    assert forall|a: int, b: int|
                        0 <= a < nv.len() && 0 <= b < nv.len() && a != b implies (#[trigger] nv[a]).0@
                        != (#[trigger] nv[b]).0@ by {
                        let oa = if a < i { a } else { a + 1 };
                        let ob = if b < i { b } else { b + 1 };
                        assert(nv[a] == old_v[oa] && nv[b] == old_v[ob]);
                    }
                }
                assert forall|q: Seq<char>| #![auto]
                    assoc_view(nv).dom().contains(q) == assoc_view(old_v).remove(k).dom().contains(q)
                    by {
                    if has_key(nv, q) {
                        let j = key_index(nv, q);
                        let oj = if j < i { j } else { j + 1 };
                        assert(nv[j] == old_v[oj]);
                        assert(old_v[oj].0@ != old_v[i as int].0@);
                    }
                    if q != k && has_key(old_v, q) {
                        let j = key_index(old_v, q);
                        assert(j != i);
                        let nj = if j < i { j } else { j - 1 };
                        assert(nv[nj] == old_v[j]);
                    }
                }
                assert forall|q: Seq<char>| #![auto] assoc_view(nv).dom().contains(q) implies
                    assoc_view(nv)[q] == assoc_view(old_v).remove(k)[q] by {
                    let j = key_index(nv, q);
                    lemma_view_at(nv, j);
                    let oj = if j < i { j } else { j + 1 };
                    assert(nv[j] == old_v[oj]);
                    lemma_view_at(old_v, oj);
                }
                assert(assoc_view(nv) =~= assoc_view(old_v).remove(k));
            }
            Some(val)
        },
        None => {
            proof {
                assert(assoc_view(old_v).remove(k) =~= assoc_view(old_v));
            }
            None
        },
    }
}

} // verus!
