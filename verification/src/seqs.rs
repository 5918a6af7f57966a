//! Facts about sequences used across the engine.
use vstd::prelude::*;

verus! {

/// The first index of `s` whose element satisfies `f`.
pub open spec fn first_match<A>(s: Seq<A>, f: spec_fn(A) -> bool) -> Option<int>
    decreases s.len(),
{
    if s.len() == 0 {
        None
    } else if f(s[0]) {
        Some(0)
    } else {
        match first_match(s.drop_first(), f) {
            Some(i) => Some(i + 1),
            None => None,
        }
    }
}

/// `first_match` finds the first satisfying element, and none means no element satisfies `f`.
pub proof fn lemma_first_match<A>(s: Seq<A>, f: spec_fn(A) -> bool)
    ensures
        first_match(s, f) matches Some(i) ==> 0 <= i < s.len() && f(s[i]) && forall|j: int|
            0 <= j < i ==> !f(#[trigger] s[j]),
        first_match(s, f) is None ==> forall|j: int| 0 <= j < s.len() ==> !f(#[trigger] s[j]),
    decreases s.len(),
{
    if s.len() > 0 {
        lemma_first_match(s.drop_first(), f);
        assert forall|j: int| 1 <= j < s.len() implies s[j] == s.drop_first()[j - 1] by {}
        if !f(s[0]) {
            if first_match(s, f) is None {
                assert forall|j: int| 0 <= j < s.len() implies !f(#[trigger] s[j]) by {
                    if j > 0 {
                        assert(s[j] == s.drop_first()[j - 1]);
                    }
                }
            } else {
                let i = first_match(s, f).unwrap();
                assert forall|j: int| 0 <= j < i implies !f(#[trigger] s[j]) by {
                    if j > 0 {
                        assert(s[j] == s.drop_first()[j - 1]);
                    }
                }
            }
        }
    }
}

/// An index that satisfies `f` with none before it is the first match.
pub proof fn lemma_first_match_at<A>(s: Seq<A>, f: spec_fn(A) -> bool, i: int)
    requires
        0 <= i < s.len(),
        f(s[i]),
        forall|j: int| 0 <= j < i ==> !f(#[trigger] s[j]),
    ensures
        first_match(s, f) == Some(i),
{
    lemma_first_match(s, f);
    match first_match(s, f) {
        Some(k) => {
            if k < i {
                assert(!f(s[k]));
            }
            if k > i {
                assert(!f(s[i]));
            }
        },
        None => {
            assert(!f(s[i]));
        },
    }
}

/// The elements of `s` grouped by key, keys `0..n` in increasing order,
/// each group in the order of `s`: a stable sort of `s` by `key`.
pub open spec fn bucket_concat<A>(s: Seq<A>, key: spec_fn(A) -> nat, n: nat) -> Seq<A>
    decreases n,
{
    if n == 0 {
        Seq::empty()
    } else {
        bucket_concat(s, key, (n - 1) as nat) + s.filter(|x: A| key(x) == (n - 1) as nat)
    }
}

/// Whether `s` has its keys in non-decreasing order.
pub open spec fn sorted_by<A>(s: Seq<A>, key: spec_fn(A) -> nat) -> bool {
    forall|i: int, j: int| 0 <= i <= j < s.len() ==> key(#[trigger] s[i]) <= key(#[trigger] s[j])
}

/// Grouping by key sorts: the groups come in increasing key order, every
/// key below `n`.
pub proof fn lemma_bucket_concat_sorted<A>(s: Seq<A>, key: spec_fn(A) -> nat, n: nat)
    ensures
        sorted_by(bucket_concat(s, key, n), key),
        forall|i: int| 0 <= i < bucket_concat(s, key, n).len() ==> key(#[trigger] bucket_concat(s, key, n)[i]) < n,
    decreases n,
{
    broadcast use vstd::seq_lib::group_filter_ensures;

    if n > 0 {
        let m = (n - 1) as nat;
        lemma_bucket_concat_sorted(s, key, m);
        let x = bucket_concat(s, key, m);
        let g = |y: A| key(y) == m;
        let b = s.filter(g);
        let t = bucket_concat(s, key, n);
        assert(t == x + b);
        assert forall|i: int| 0 <= i < b.len() implies key(#[trigger] b[i]) == m by {
            assert(g(b[i]));
        }
        assert forall|i: int| 0 <= i < t.len() implies key(#[trigger] t[i]) < n by {
            if i < x.len() {
                assert(t[i] == x[i]);
            } else {
                assert(t[i] == b[i - x.len()]);
            }
        }
        assert forall|i: int, j: int| 0 <= i <= j < t.len() implies key(#[trigger] t[i]) <= key(#[trigger] t[j]) by {
            if j < x.len() {
                assert(t[i] == x[i] && t[j] == x[j]);
            } else if i >= x.len() {
                assert(t[i] == b[i - x.len()] && t[j] == b[j - x.len()]);
            } else {
                assert(t[i] == x[i] && t[j] == b[j - x.len()]);
            }
        }
    }
}


/// Two sequences on which `f` agrees element by element have the same first match.
pub proof fn lemma_first_match_agree<A>(s: Seq<A>, t: Seq<A>, f: spec_fn(A) -> bool)
    requires
        s.len() == t.len(),
        forall|j: int| 0 <= j < s.len() ==> f(#[trigger] s[j]) == f(t[j]),
    ensures
        first_match(s, f) == first_match(t, f),
{
    lemma_first_match(s, f);
    lemma_first_match(t, f);
    match first_match(s, f) {
        Some(i) => {
            assert forall|j: int| 0 <= j < i implies !f(#[trigger] t[j]) by {
                assert(!f(s[j]));
            }
            lemma_first_match_at(t, f, i);
        },
        None => {
            if let Some(k) = first_match(t, f) {
                assert(!f(s[k]));
            }
        },
    }
}


/// The first element of `s` that satisfies `f`.
pub open spec fn found<A>(s: Seq<A>, f: spec_fn(A) -> bool) -> Option<A> {
    match first_match(s, f) {
        Some(i) => Some(s[i]),
        None => None,
    }
}

/// Searching a non-empty sequence looks at its head, then at its tail.
proof fn lemma_found_cons<A>(s: Seq<A>, f: spec_fn(A) -> bool)
    requires
        s.len() > 0,
    ensures
        found(s, f) == if f(s[0]) {
            Some(s[0])
        } else {
            found(s.drop_first(), f)
        },
{
    lemma_first_match(s.drop_first(), f);
}

/// Searching a concatenation searches the first part, then the second.
pub proof fn lemma_found_concat<A>(x: Seq<A>, y: Seq<A>, f: spec_fn(A) -> bool)
    ensures
        found(x + y, f) == if found(x, f) is Some {
            found(x, f)
        } else {
            found(y, f)
        },
    decreases x.len(),
{
    if x.len() == 0 {
        assert(x + y =~= y);
    } else {
        lemma_found_cons(x + y, f);
        lemma_found_cons(x, f);
        assert((x + y).drop_first() =~= x.drop_first() + y);
        lemma_found_concat(x.drop_first(), y, f);
    }
}

/// Nothing is found where nothing satisfies `f`.
pub proof fn lemma_found_none<A>(s: Seq<A>, f: spec_fn(A) -> bool)
    requires
        forall|i: int| 0 <= i < s.len() ==> !f(#[trigger] s[i]),
    ensures
        found(s, f) is None,
{
    lemma_first_match(s, f);
}

/// Filtering by a condition that `f` implies does not change what is found.
pub proof fn lemma_found_filter<A>(s: Seq<A>, g: spec_fn(A) -> bool, f: spec_fn(A) -> bool)
    requires
        forall|x: A| #[trigger] f(x) ==> g(x),
    ensures
        found(s.filter(g), f) == found(s, f),
    decreases s.len(),
{
    reveal(Seq::filter);
    if s.len() > 0 {
        let init = s.drop_last();
        let last = s.last();
        lemma_found_filter(init, g, f);
        assert(s =~= init + seq![last]);
        lemma_found_concat(init, seq![last], f);
        lemma_found_cons(seq![last], f);
        assert(seq![last].drop_first() =~= Seq::<A>::empty());
        if g(last) {
            assert(s.filter(g) =~= init.filter(g) + seq![last]);
            lemma_found_concat(init.filter(g), seq![last], f);
        } else {
            assert(s.filter(g) =~= init.filter(g));
        }
    }
}

/// A stable sort by key finds, among the elements of key `k`, what the
/// unsorted sequence finds, provided `f` holds only of elements of key `k`.
pub proof fn lemma_found_buckets<A>(s: Seq<A>, key: spec_fn(A) -> nat, n: nat, f: spec_fn(A) -> bool, k: nat)
    requires
        forall|x: A| #[trigger] f(x) ==> key(x) == k,
    ensures
        found(bucket_concat(s, key, n), f) == if k < n {
            found(s, f)
        } else {
            None
        },
    decreases n,
{
    broadcast use vstd::seq_lib::group_filter_ensures;

    if n == 0 {
        lemma_found_none(Seq::<A>::empty(), f);
    } else {
        let m = (n - 1) as nat;
        let g = |x: A| key(x) == m;
        lemma_found_buckets(s, key, m, f, k);
        lemma_found_concat(bucket_concat(s, key, m), s.filter(g), f);
        if k == m {
            lemma_found_filter(s, g, f);
        } else {
            let b = s.filter(g);
            assert forall|i: int| 0 <= i < b.len() implies !f(#[trigger] b[i]) by {
                assert(g(b[i]));
            }
            lemma_found_none(b, f);
        }
    }
}

} // verus!
