//! Stable sorting by character-sequence keys, as `slice::sort_by` and
//! `slice::sort_by_key` do it, and sorting with duplicates removed.
use vstd::prelude::*;
use crate::text::{lex_lt, lex_le};

verus! {

/// `p` lists each of the indices `0..keys.len()` exactly once.
pub open spec fn is_perm(p: Seq<int>, n: int) -> bool {
    &&& p.len() == n
    &&& forall|i: int| 0 <= i < n ==> 0 <= #[trigger] p[i] < n
    &&& forall|i: int, j: int| 0 <= i < j < n ==> p[i] != p[j]
}

/// `p` is the order in which a stable sort by `keys` lists the indices:
/// a permutation, non-decreasing in key, and keeping the input order of
/// entries whose keys are equal.
pub open spec fn is_stable_order(keys: Seq<Seq<char>>, p: Seq<int>) -> bool {
    &&& is_perm(p, keys.len() as int)
    &&& forall|i: int, j: int|
        0 <= i < j < p.len() ==> lex_le(#[trigger] keys[p[i]], #[trigger] keys[p[j]])
    &&& forall|i: int, j: int|
        0 <= i < j < p.len() && keys[p[i]] == keys[p[j]] ==> p[i] < p[j]
}

/// `r` is what a stable sort of `items` by `keys` gives back.
pub open spec fn is_stable_sort_of<T>(items: Seq<T>, keys: Seq<Seq<char>>, r: Seq<T>) -> bool {
    &&& items.len() == keys.len()
    &&& exists|p: Seq<int>|
        is_stable_order(keys, p) && r.len() == p.len() && forall|i: int|
            0 <= i < r.len() ==> r[i] == items[#[trigger] p[i]]
}

/// Lexicographic comparison of two character sequences (`a < b`).
pub fn lex_less(a: &[char], b: &[char]) -> (r: bool)
    ensures
        r == lex_lt(a@, b@),
{
    let mut i: usize = 0;
    assert(a@.skip(0) == a@ && b@.skip(0) == b@);
    while i < a.len() && i < b.len()
        invariant
            0 <= i <= a.len(),
            0 <= i <= b.len(),
            a@.take(i as int) == b@.take(i as int),
            lex_lt(a@, b@) == lex_lt(a@.skip(i as int), b@.skip(i as int)),
        decreases a.len() - i,
    {
        if a[i] < b[i] {
            return true;
        }
        if a[i] > b[i] {
            return false;
        }
        proof {
            let sa = a@.skip(i as int);
            let sb = b@.skip(i as int);
            assert(sa.drop_first() == a@.skip(i + 1));
            assert(sb.drop_first() == b@.skip(i + 1));
            assert(a@.take(i + 1) == a@.take(i as int).push(a@[i as int]));
            assert(b@.take(i + 1) == b@.take(i as int).push(b@[i as int]));
        }
        i = i + 1;
    }
    i < b.len()
}

/// Keys compare as `lex_le` or the other way round.
proof fn lemma_not_lt_is_ge(a: Seq<char>, b: Seq<char>)
    requires
        !lex_lt(a, b),
    ensures
        lex_le(b, a),
{
    crate::text::lemma_lex_trichotomy(a, b);
}

proof fn lemma_le_trans(a: Seq<char>, b: Seq<char>, c: Seq<char>)
    requires
        lex_le(a, b),
        lex_le(b, c),
    ensures
        lex_le(a, c),
{
    if lex_lt(a, b) && lex_lt(b, c) {
        crate::text::lemma_lex_transitive(a, b, c);
    }
}

proof fn lemma_lt_le_trans(a: Seq<char>, b: Seq<char>, c: Seq<char>)
    requires
        lex_lt(a, b),
        lex_le(b, c),
    ensures
        lex_lt(a, c),
{
    if lex_lt(b, c) {
        crate::text::lemma_lex_transitive(a, b, c);
    }
}

/// The order in which a stable sort by `keys` lists the entries.
pub fn stable_order(keys: &Vec<Vec<char>>) -> (p: Vec<usize>)
    ensures
        is_stable_order(keys@.map_values(|k: Vec<char>| k@), p@.map_values(|x: usize| x as int)),
{
    let ghost ks = keys@.map_values(|k: Vec<char>| k@);
    let mut p: Vec<usize> = Vec::new();
    let mut n: usize = 0;
    while n < keys.len()
        invariant
            0 <= n <= keys.len(),
            ks == keys@.map_values(|k: Vec<char>| k@),
            p.len() == n,
            forall|i: int| 0 <= i < n ==> 0 <= #[trigger] p@[i] < n,
            forall|i: int, j: int| 0 <= i < j < n ==> p@[i] != p@[j],
            forall|i: int, j: int|
                0 <= i < j < n ==> lex_le(#[trigger] ks[p@[i] as int], #[trigger] ks[p@[j] as int]),
            forall|i: int, j: int|
                0 <= i < j < n && ks[p@[i] as int] == ks[p@[j] as int] ==> p@[i] < p@[j],
        decreases keys.len() - n,
    {
        // first position whose key is strictly greater than keys[n]
        let mut k: usize = 0;
        while k < p.len() && !lex_less(keys[n].as_slice(), keys[p[k]].as_slice())
            invariant
                0 <= k <= p.len(),
                p.len() == n,
                n < keys.len(),
                ks == keys@.map_values(|k: Vec<char>| k@),
                forall|i: int| 0 <= i < n ==> 0 <= #[trigger] p@[i] < n,
                forall|i: int| 0 <= i < k ==> lex_le(#[trigger] ks[p@[i] as int], ks[n as int]),
            decreases p.len() - k,
        {
            proof {
                lemma_not_lt_is_ge(ks[n as int], ks[p@[k as int] as int]);
            }
            k = k + 1;
        }
        let ghost old_p = p@;
        proof {
            if k < p.len() {
                // everything from k on is strictly greater than keys[n]
                assert forall|i: int| k <= i < n implies lex_lt(
                    ks[n as int],
                    #[trigger] ks[old_p[i] as int],
                ) by {
                    if i > k {
                        lemma_lt_le_trans(ks[n as int], ks[old_p[k as int] as int], ks[old_p[i] as int]);
                    }
                }
            }
        }
        p.insert(k, n);
        proof {
            let q = p@;
            assert(q == old_p.insert(k as int, n));
            assert forall|i: int| 0 <= i < n + 1 implies 0 <= #[trigger] q[i] < n + 1 by {
                if i < k {
                    assert(q[i] == old_p[i]);
                } else if i > k {
                    assert(q[i] == old_p[i - 1]);
                }
            }
            assert forall|i: int, j: int| 0 <= i < j < n + 1 implies q[i] != q[j] by {
                if i < k && j < k {
                } else if i < k && j == k {
                } else if i < k && j > k {
                    assert(q[j] == old_p[j - 1]);
                } else if i == k {
                    assert(q[j] == old_p[j - 1]);
                } else {
                    assert(q[i] == old_p[i - 1]);
                    assert(q[j] == old_p[j - 1]);
                }
            }
            assert forall|i: int, j: int| 0 <= i < j < n + 1 implies lex_le(
                #[trigger] ks[q[i] as int],
                #[trigger] ks[q[j] as int],
            ) by {
                if i < k && j < k {
                    assert(q[i] == old_p[i] && q[j] == old_p[j]);
                } else if i < k && j == k {
                    assert(q[i] == old_p[i]);
                } else if i < k && j > k {
                    assert(q[i] == old_p[i] && q[j] == old_p[j - 1]);
                    assert(lex_lt(ks[n as int], ks[old_p[j - 1] as int]));
                    lemma_le_trans(ks[old_p[i] as int], ks[n as int], ks[old_p[j - 1] as int]);
                } else if i == k {
                    assert(q[j] == old_p[j - 1]);
                    assert(lex_lt(ks[n as int], ks[old_p[j - 1] as int]));
                } else {
                    assert(q[i] == old_p[i - 1] && q[j] == old_p[j - 1]);
                }
            }
            assert forall|i: int, j: int|
                0 <= i < j < n + 1 && ks[q[i] as int] == ks[q[j] as int] implies q[i] < q[j] by {
                if i < k && j < k {
                    assert(q[i] == old_p[i] && q[j] == old_p[j]);
                } else if i < k && j == k {
                    assert(q[i] == old_p[i]);
                } else if i < k && j > k {
                    assert(q[i] == old_p[i] && q[j] == old_p[j - 1]);
                    assert(lex_lt(ks[n as int], ks[old_p[j - 1] as int]));
                    crate::text::lemma_lex_irreflexive(ks[n as int]);
                    if ks[q[i] as int] == ks[q[j] as int] {
                        assert(lex_le(ks[old_p[j - 1] as int], ks[n as int]));
                        if lex_lt(ks[old_p[j - 1] as int], ks[n as int]) {
                            crate::text::lemma_lex_asymmetric(
                                ks[n as int],
                                ks[old_p[j - 1] as int],
                            );
                        }
                    }
                } else if i == k {
                    assert(q[j] == old_p[j - 1]);
                    assert(lex_lt(ks[n as int], ks[old_p[j - 1] as int]));
                    crate::text::lemma_lex_irreflexive(ks[n as int]);
                } else {
                    assert(q[i] == old_p[i - 1] && q[j] == old_p[j - 1]);
                }
            }
        }
        n = n + 1;
    }
    proof {
        let pv = p@.map_values(|x: usize| x as int);
        assert forall|i: int| 0 <= i < pv.len() implies pv[i] == p@[i] as int by {}
    }
    p
}

/// The character sequences of a list of strings.
pub open spec fn views(v: Seq<String>) -> Seq<Seq<char>> {
    v.map_values(|s: String| s@)
}

/// The character vectors of a list of strings, used as sort keys.
pub fn string_keys(v: &Vec<String>) -> (k: Vec<Vec<char>>)
    ensures
        k@.map_values(|x: Vec<char>| x@) == views(v@),
{
    let mut k: Vec<Vec<char>> = Vec::new();
    let mut i: usize = 0;
    while i < v.len()
        invariant
            0 <= i <= v.len(),
            k@.map_values(|x: Vec<char>| x@) == views(v@.take(i as int)),
        decreases v.len() - i,
    {
        let c = crate::text::chars_of(v[i].as_str());
        k.push(c);
        proof {
            assert(v@.take(i + 1) == v@.take(i as int).push(v@[i as int]));
            assert(k@.map_values(|x: Vec<char>| x@) == views(v@.take(i as int)).push(v@[i as int]@));
        }
        i = i + 1;
    }
    assert(v@.take(v.len() as int) == v@);
    k
}

/// `slice::sort` on a list of strings: lexicographic, stable.
pub fn sort_strings(v: &Vec<String>) -> (r: Vec<String>)
    ensures
        is_stable_sort_of(views(v@), views(v@), views(r@)),
{
    let keys = string_keys(v);
    let p = stable_order(&keys);
    let ghost pv = p@.map_values(|x: usize| x as int);
    let mut r: Vec<String> = Vec::new();
    let mut i: usize = 0;
    while i < p.len()
        invariant
            0 <= i <= p.len(),
            p.len() == v.len(),
            pv == p@.map_values(|x: usize| x as int),
            keys@.map_values(|x: Vec<char>| x@) == views(v@),
            is_stable_order(views(v@), pv),
            r.len() == i,
            forall|j: int| 0 <= j < i ==> r@[j]@ == v@[#[trigger] pv[j]]@,
        decreases p.len() - i,
    {
        let idx = p[i];
        assert(pv[i as int] == idx as int);
        let s = v[idx].clone();
        r.push(s);
        i = i + 1;
    }
    proof {
        let rv = views(r@);
        assert forall|j: int| 0 <= j < rv.len() implies rv[j] == views(v@)[#[trigger] pv[j]] by {
            assert(r@[j]@ == v@[pv[j]]@);
        }
    }
    r
}

/// The sorted list of the distinct strings of `v`, as collecting into a
/// `HashSet` and sorting gives it.
pub fn sort_dedup_strings(v: &Vec<String>) -> (r: Vec<String>)
    ensures
        forall|i: int, j: int| 0 <= i < j < r.len() ==> lex_lt(#[trigger] r@[i]@, #[trigger] r@[j]@),
        forall|x: Seq<char>| views(r@).contains(x) <==> views(v@).contains(x),
{
    let s = sort_strings(v);
    let ghost p = choose|p: Seq<int>|
        is_stable_order(views(v@), p) && views(s@).len() == p.len() && forall|i: int|
            0 <= i < views(s@).len() ==> views(s@)[i] == views(v@)[#[trigger] p[i]];
    let mut r: Vec<String> = Vec::new();
    let mut i: usize = 0;
    while i < s.len()
        invariant
            0 <= i <= s.len(),
            s.len() == v.len(),
            is_stable_order(views(v@), p),
            p.len() == s.len(),
            forall|k: int| 0 <= k < s.len() ==> s@[k]@ == v@[#[trigger] p[k]]@,
            forall|a: int, b: int| 0 <= a < b < r.len() ==> lex_lt(#[trigger] r@[a]@, #[trigger] r@[b]@),
            forall|x: Seq<char>| views(r@).contains(x) <==> views(s@.take(i as int)).contains(x),
            i > 0 ==> r.len() > 0 && r@[r.len() - 1]@ == s@[i - 1]@,
            i == 0 ==> r.len() == 0,
        decreases s.len() - i,
    {
        let ghost before = r@;
        let ghost t0 = views(s@.take(i as int));
        let ghost t1 = views(s@.take(i + 1));
        let keep = if r.len() == 0 {
            true
        } else {
            !crate::text::str_eq(r[r.len() - 1].as_str(), s[i].as_str())
        };
        proof {
            assert(s@.take(i + 1) == s@.take(i as int).push(s@[i as int]));
            assert(t1 == t0.push(s@[i as int]@));
            if i > 0 {
                // sortedness of s at i-1, i
                assert(s@[i - 1]@ == views(v@)[p[i - 1]]);
                assert(s@[i as int]@ == views(v@)[p[i as int]]);
                assert(lex_le(views(v@)[p[i - 1]], views(v@)[p[i as int]]));
            }
        }
        if keep {
            let c = s[i].clone();
            r.push(c);
            proof {
                assert(views(r@) == views(before).push(s@[i as int]@));
                assert forall|a: int, b: int| 0 <= a < b < r.len() implies lex_lt(
                    #[trigger] r@[a]@,
                    #[trigger] r@[b]@,
                ) by {
                    if b == r.len() - 1 && a < b {
                        if a < b - 1 {
                            crate::text::lemma_lex_transitive(
                                r@[a]@,
                                r@[b - 1]@,
                                r@[b]@,
                            );
                        }
                    }
                }
                assert forall|x: Seq<char>| views(r@).contains(x) <==> t1.contains(x) by {
                    if views(r@).contains(x) {
                        let k = choose|k: int| 0 <= k < views(r@).len() && views(r@)[k] == x;
                        if k < before.len() {
                            assert(views(before)[k] == x);
                            assert(views(before).contains(x));
                            let m = choose|m: int| 0 <= m < t0.len() && t0[m] == x;
                            assert(t1[m] == x);
                        } else {
                            assert(t1[i as int] == x);
                        }
                    }
                    if t1.contains(x) {
                        let m = choose|m: int| 0 <= m < t1.len() && t1[m] == x;
                        if m < i {
                            assert(t0[m] == x);
                            assert(t0.contains(x));
                            assert(views(before).contains(x));
                            let k = choose|k: int| 0 <= k < views(before).len() && views(before)[k] == x;
                            assert(r@[k] == before[k]);
                            assert(views(r@)[k] == x);
                        } else {
                            assert(views(r@)[r.len() - 1] == x);
                        }
                    }
                }
            }
        } else {
            proof {
                assert forall|x: Seq<char>| views(r@).contains(x) <==> t1.contains(x) by {
                    if t1.contains(x) {
                        let m = choose|m: int| 0 <= m < t1.len() && t1[m] == x;
                        if m < i {
                            assert(t0[m] == x);
                            assert(t0.contains(x));
                        } else {
                            assert(views(r@)[r.len() - 1] == x);
                        }
                    }
                    if views(r@).contains(x) {
                        let k = choose|k: int| 0 <= k < views(r@).len() && views(r@)[k] == x;
                        let m = choose|m: int| 0 <= m < t0.len() && t0[m] == x;
                        assert(t1[m] == x);
                    }
                }
            }
        }
        i = i + 1;
    }
    proof {
        assert(s@.take(s.len() as int) == s@);
        assert forall|x: Seq<char>| views(s@).contains(x) <==> views(v@).contains(x) by {
            if views(s@).contains(x) {
                let k = choose|k: int| 0 <= k < views(s@).len() && views(s@)[k] == x;
                assert(views(v@)[p[k]] == x);
            }
            if views(v@).contains(x) {
                let m = choose|m: int| 0 <= m < views(v@).len() && views(v@)[m] == x;
                // m appears somewhere in p
                lemma_perm_covers(p, v.len() as int, m);
                let k = choose|k: int| 0 <= k < p.len() && p[k] == m;
                assert(views(s@)[k] == x);
            }
        }
    }
    r
}

/// A permutation of `0..n` contains each index below `n`.
pub proof fn lemma_perm_covers(p: Seq<int>, n: int, m: int)
    requires
        is_perm(p, n),
        0 <= m < n,
    ensures
        exists|k: int| 0 <= k < p.len() && p[k] == m,
{
    let s = Set::new(|x: int| 0 <= x < n);
    let ps = p.to_set();
    if !(exists|k: int| 0 <= k < p.len() && p[k] == m) {
        // p maps 0..n injectively into 0..n minus m, which has n - 1 elements
        assert(ps.subset_of(s.remove(m)));
        vstd::set_lib::lemma_int_range(0, n);
        assert(s =~= vstd::set_lib::set_int_range(0, n));
        p.unique_seq_to_set();
        assert(p.no_duplicates()) by {
            assert forall|a: int, b: int| 0 <= a < p.len() && 0 <= b < p.len() && a != b implies p[a] != p[b] by {
                if a < b {
                } else {
                }
            }
        }
        vstd::set_lib::lemma_len_subset(ps, s.remove(m));
    }
}

/// `p` is the order in which a stable sort by the integer `keys` lists the
/// indices: a permutation, non-decreasing in key, and keeping the input
/// order of entries whose keys are equal.
pub open spec fn is_stable_int_order(keys: Seq<int>, p: Seq<int>) -> bool {
    &&& is_perm(p, keys.len() as int)
    &&& forall|i: int, j: int| 0 <= i < j < p.len() ==> #[trigger] keys[p[i]] <= #[trigger] keys[p[j]]
    &&& forall|i: int, j: int| 0 <= i < j < p.len() && keys[p[i]] == keys[p[j]] ==> p[i] < p[j]
}

/// The order in which a stable sort by integer keys lists the entries.
pub fn stable_int_order(keys: &Vec<u64>) -> (p: Vec<usize>)
    ensures
        is_stable_int_order(keys@.map_values(|k: u64| k as int), p@.map_values(|x: usize| x as int)),
{
    let ghost ks = keys@.map_values(|k: u64| k as int);
    let mut p: Vec<usize> = Vec::new();
    let mut n: usize = 0;
    while n < keys.len()
        invariant
            0 <= n <= keys.len(),
            ks == keys@.map_values(|k: u64| k as int),
            p.len() == n,
            forall|i: int| 0 <= i < n ==> 0 <= #[trigger] p@[i] < n,
            forall|i: int, j: int| 0 <= i < j < n ==> p@[i] != p@[j],
            forall|i: int, j: int| 0 <= i < j < n ==> #[trigger] ks[p@[i] as int] <= #[trigger] ks[p@[j] as int],
            forall|i: int, j: int| 0 <= i < j < n && ks[p@[i] as int] == ks[p@[j] as int] ==> p@[i] < p@[j],
        decreases keys.len() - n,
    {
        let mut k: usize = 0;
        while k < p.len() && keys[p[k]] <= keys[n]
            invariant
                0 <= k <= p.len(),
                p.len() == n,
                n < keys.len(),
                ks == keys@.map_values(|k: u64| k as int),
                forall|i: int| 0 <= i < n ==> 0 <= #[trigger] p@[i] < n,
                forall|i: int| 0 <= i < k ==> #[trigger] ks[p@[i] as int] <= ks[n as int],
            decreases p.len() - k,
        {
            k = k + 1;
        }
        let ghost old_p = p@;
        proof {
            if k < p.len() {
                assert forall|i: int| k <= i < n implies ks[n as int] < #[trigger] ks[old_p[i] as int] by {
                    if i > k {
                        assert(ks[old_p[k as int] as int] <= ks[old_p[i] as int]);
                    }
                }
            }
        }
        p.insert(k, n);
        proof {
            let q = p@;
            assert(q == old_p.insert(k as int, n));
            assert forall|i: int| 0 <= i < n + 1 implies 0 <= #[trigger] q[i] < n + 1 by {
                if i < k {
                    assert(q[i] == old_p[i]);
                } else if i > k {
                    assert(q[i] == old_p[i - 1]);
                }
            }
            assert forall|i: int, j: int| 0 <= i < j < n + 1 implies q[i] != q[j] by {
                if i < k && j < k {
                } else if i < k && j == k {
                } else if i < k && j > k {
                    assert(q[j] == old_p[j - 1]);
                } else if i == k {
                    assert(q[j] == old_p[j - 1]);
                } else {
                    assert(q[i] == old_p[i - 1]);
                    assert(q[j] == old_p[j - 1]);
                }
            }
            assert forall|i: int, j: int| 0 <= i < j < n + 1 implies #[trigger] ks[q[i] as int] <= #[trigger] ks[q[j] as int] by {
                if i < k && j < k {
                    assert(q[i] == old_p[i] && q[j] == old_p[j]);
                } else if i < k && j == k {
                    assert(q[i] == old_p[i]);
                } else if i < k && j > k {
                    assert(q[i] == old_p[i] && q[j] == old_p[j - 1]);
                    assert(ks[n as int] < ks[old_p[j - 1] as int]);
                } else if i == k {
                    assert(q[j] == old_p[j - 1]);
                    assert(ks[n as int] < ks[old_p[j - 1] as int]);
                } else {
                    assert(q[i] == old_p[i - 1] && q[j] == old_p[j - 1]);
                }
            }
            assert forall|i: int, j: int| 0 <= i < j < n + 1 && ks[q[i] as int] == ks[q[j] as int] implies q[i] < q[j] by {
                if i < k && j < k {
                    assert(q[i] == old_p[i] && q[j] == old_p[j]);
                } else if i < k && j == k {
                    assert(q[i] == old_p[i]);
                } else if i < k && j > k {
                    assert(q[i] == old_p[i] && q[j] == old_p[j - 1]);
                    assert(ks[n as int] < ks[old_p[j - 1] as int]);
                } else if i == k {
                    assert(q[j] == old_p[j - 1]);
                    assert(ks[n as int] < ks[old_p[j - 1] as int]);
                } else {
                    assert(q[i] == old_p[i - 1] && q[j] == old_p[j - 1]);
                }
            }
        }
        n = n + 1;
    }
    proof {
        let pv = p@.map_values(|x: usize| x as int);
        assert forall|i: int| 0 <= i < pv.len() implies pv[i] == p@[i] as int by {}
    }
    p
}

} // verus!
