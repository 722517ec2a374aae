//! Specification helpers over sequences: the first element with a property,
//! and the subsequence of the elements with a property.
use vstd::prelude::*;

verus! {

/// `i` is the index of the first element of `s` that satisfies `p`.
pub open spec fn is_first<T>(s: Seq<T>, p: spec_fn(T) -> bool, i: int) -> bool {
    &&& 0 <= i < s.len()
    &&& p(s[i])
    &&& forall|j: int| 0 <= j < i ==> !p(#[trigger] s[j])
}

/// The index of the first element of `s` that satisfies `p`, if any.
pub open spec fn first_index<T>(s: Seq<T>, p: spec_fn(T) -> bool) -> Option<int> {
    if exists|i: int| is_first(s, p, i) {
        Some(choose|i: int| is_first(s, p, i))
    } else {
        None
    }
}

/// The first index is unique.
pub proof fn lemma_first_index_is<T>(s: Seq<T>, p: spec_fn(T) -> bool, i: int)
    requires
        is_first(s, p, i),
    ensures
        first_index(s, p) == Some(i),
{
    let k = choose|k: int| is_first(s, p, k);
    assert(is_first(s, p, k));
    if k < i {
        assert(!p(s[k]));
    }
    if i < k {
        assert(!p(s[i]));
    }
}

/// When no element satisfies `p`, there is no first index.
pub proof fn lemma_first_index_none<T>(s: Seq<T>, p: spec_fn(T) -> bool)
    requires
        forall|i: int| 0 <= i < s.len() ==> !p(#[trigger] s[i]),
    ensures
        first_index(s, p) is None,
{
    if exists|i: int| is_first(s, p, i) {
        let k = choose|k: int| is_first(s, p, k);
        assert(p(s[k]));
    }
}

/// When no element comes first with the property, no element has it.
pub proof fn lemma_first_index_none_all<T>(s: Seq<T>, p: spec_fn(T) -> bool)
    requires
        first_index(s, p) is None,
    ensures
        forall|i: int| 0 <= i < s.len() ==> !p(#[trigger] s[i]),
    decreases s.len(),
{
    if s.len() > 0 {
        let d = s.drop_last();
        if exists|k: int| is_first(d, p, k) {
            let k = choose|k: int| is_first(d, p, k);
            assert forall|j: int| 0 <= j < k implies !p(#[trigger] s[j]) by {
                assert(s[j] == d[j]);
            }
            assert(s[k] == d[k]);
            assert(is_first(s, p, k));
        }
        lemma_first_index_none_all(d, p);
        assert forall|j: int| 0 <= j < s.len() - 1 implies !p(#[trigger] s[j]) by {
            assert(s[j] == d[j]);
        }
        if p(s.last()) {
            assert(is_first(s, p, s.len() - 1));
        }
    }
}

/// The elements of `s` that satisfy `p`, in order.
pub open spec fn keep<T>(s: Seq<T>, p: spec_fn(T) -> bool) -> Seq<T>
    decreases s.len(),
{
    if s.len() == 0 {
        Seq::empty()
    } else if p(s.last()) {
        keep(s.drop_last(), p).push(s.last())
    } else {
        keep(s.drop_last(), p)
    }
}

/// Keeping elements never lengthens a sequence, and keeps its length exactly
/// when every element satisfies the property.
pub proof fn lemma_keep_len<T>(s: Seq<T>, p: spec_fn(T) -> bool)
    ensures
        keep(s, p).len() <= s.len(),
        keep(s, p).len() == s.len() <==> forall|i: int| 0 <= i < s.len() ==> p(#[trigger] s[i]),
    decreases s.len(),
{
    if s.len() > 0 {
        lemma_keep_len(s.drop_last(), p);
        if forall|i: int| 0 <= i < s.len() ==> p(#[trigger] s[i]) {
            assert forall|i: int| 0 <= i < s.drop_last().len() implies p(#[trigger] s.drop_last()[i]) by {
                assert(p(s[i]));
            }
        }
        if forall|i: int| 0 <= i < s.drop_last().len() ==> p(#[trigger] s.drop_last()[i]) {
            if p(s.last()) {
                assert forall|i: int| 0 <= i < s.len() implies p(#[trigger] s[i]) by {
                    if i < s.len() - 1 {
                        assert(p(s.drop_last()[i]));
                    }
                }
            }
        }
    }
}

/// Every element that is kept satisfies the property.
pub proof fn lemma_keep_all<T>(s: Seq<T>, p: spec_fn(T) -> bool)
    ensures
        forall|i: int| 0 <= i < keep(s, p).len() ==> p(#[trigger] keep(s, p)[i]),
    decreases s.len(),
{
    if s.len() > 0 {
        lemma_keep_len(s.drop_last(), p);
        lemma_keep_all(s.drop_last(), p);
    }
}

/// Keeping from a sequence extended by one element.
pub proof fn lemma_keep_push<T>(s: Seq<T>, x: T, p: spec_fn(T) -> bool)
    ensures
        keep(s.push(x), p) == if p(x) { keep(s, p).push(x) } else { keep(s, p) },
{
    assert(s.push(x).drop_last() =~= s);
}

/// A property that every element of a sequence has, every kept element has.
pub proof fn lemma_keep_preserves<T>(s: Seq<T>, p: spec_fn(T) -> bool, q: spec_fn(T) -> bool)
    requires
        forall|i: int| 0 <= i < s.len() ==> q(#[trigger] s[i]),
    ensures
        forall|i: int| 0 <= i < keep(s, p).len() ==> q(#[trigger] keep(s, p)[i]),
    decreases s.len(),
{
    if s.len() > 0 {
        assert forall|i: int| 0 <= i < s.drop_last().len() implies q(#[trigger] s.drop_last()[i]) by {
            assert(q(s[i]));
        }
        lemma_keep_preserves(s.drop_last(), p, q);
        assert(q(s[s.len() - 1]));
        let k = keep(s.drop_last(), p);
        if p(s.last()) {
            assert forall|i: int| 0 <= i < keep(s, p).len() implies q(#[trigger] keep(s, p)[i]) by {
                if i < k.len() {
                    assert(keep(s, p)[i] == k[i]);
                }
            }
        }
    }
}

/// Keeping elements of a sequence whose elements have distinct keys leaves
/// elements with distinct keys.
pub proof fn lemma_keep_distinct<T, K>(s: Seq<T>, p: spec_fn(T) -> bool, key: spec_fn(T) -> K)
    requires
        forall|a: int, b: int| 0 <= a < b < s.len() ==> key(#[trigger] s[a]) != key(#[trigger] s[b]),
    ensures
        forall|a: int, b: int|
            0 <= a < b < keep(s, p).len() ==> key(#[trigger] keep(s, p)[a]) != key(#[trigger] keep(s, p)[b]),
    decreases s.len(),
{
    if s.len() > 0 {
        let d = s.drop_last();
        assert forall|a: int, b: int| 0 <= a < b < d.len() implies key(#[trigger] d[a]) != key(#[trigger] d[b]) by {
            assert(d[a] == s[a]);
            assert(d[b] == s[b]);
        }
        lemma_keep_distinct(d, p, key);
        if p(s.last()) {
            let last = s.last();
            let q = |x: T| key(x) != key(last);
            assert forall|i: int| 0 <= i < d.len() implies q(#[trigger] d[i]) by {
                assert(d[i] == s[i]);
                assert(key(s[i]) != key(s[s.len() - 1]));
            }
            lemma_keep_preserves(d, p, q);
            let k = keep(d, p);
            assert forall|a: int, b: int|
                0 <= a < b < keep(s, p).len() implies key(#[trigger] keep(s, p)[a]) != key(
                #[trigger] keep(s, p)[b],
            ) by {
                assert(keep(s, p)[a] == k[a]);
                if b < k.len() {
                    assert(keep(s, p)[b] == k[b]);
                } else {
                    assert(q(k[a]));
                }
            }
        }
    }
}

/// An element that a sequence holds and that has the property is kept.
pub proof fn lemma_keep_contains<T>(s: Seq<T>, p: spec_fn(T) -> bool, x: T)
    requires
        s.contains(x),
        p(x),
    ensures
        keep(s, p).contains(x),
    decreases s.len(),
{
    if s.last() == x {
        assert(keep(s, p).last() == x);
        assert(keep(s, p)[keep(s, p).len() - 1] == x);
    } else {
        let i = choose|i: int| 0 <= i < s.len() && s[i] == x;
        assert(s.drop_last()[i] == x);
        lemma_keep_contains(s.drop_last(), p, x);
        let k = keep(s.drop_last(), p);
        let j = choose|j: int| 0 <= j < k.len() && k[j] == x;
        if p(s.last()) {
            assert(keep(s, p)[j] == x);
        }
    }
}

/// Removing the elements equal to something that is not in a sequence, from that
/// sequence extended by it, gives back the sequence.
pub proof fn lemma_keep_push_removed<T>(s: Seq<T>, x: T, p: spec_fn(T) -> bool)
    requires
        !p(x),
        forall|i: int| 0 <= i < s.len() ==> p(#[trigger] s[i]),
    ensures
        keep(s.push(x), p) == s,
    decreases s.len(),
{
    lemma_keep_push(s, x, p);
    lemma_keep_all_kept(s, p);
}

/// When every element satisfies the property, keeping changes nothing.
pub proof fn lemma_keep_all_kept<T>(s: Seq<T>, p: spec_fn(T) -> bool)
    requires
        forall|i: int| 0 <= i < s.len() ==> p(#[trigger] s[i]),
    ensures
        keep(s, p) == s,
    decreases s.len(),
{
    if s.len() > 0 {
        assert forall|i: int| 0 <= i < s.drop_last().len() implies p(#[trigger] s.drop_last()[i]) by {
            assert(p(s[i]));
        }
        lemma_keep_all_kept(s.drop_last(), p);
        assert(p(s[s.len() - 1]));
        assert(s.drop_last().push(s.last()) =~= s);
    } else {
        assert(s =~= Seq::empty());
    }
}

} // verus!
