//! Header lists: name/value pairs in which each name occurs once, as in a map.
use vstd::prelude::*;
use crate::seq_util::{first_index, lemma_first_index_is, lemma_first_index_none};

verus! {

/// The texts of a list of header pairs.
pub open spec fn pair_views(h: Seq<(String, String)>) -> Seq<(Seq<char>, Seq<char>)> {
    h.map_values(|p: (String, String)| (p.0@, p.1@))
}

/// No header name occurs twice.
pub open spec fn names_distinct(h: Seq<(Seq<char>, Seq<char>)>) -> bool {
    forall|i: int, j: int| 0 <= i < j < h.len() ==> #[trigger] h[i].0 != #[trigger] h[j].0
}

/// Whether a pair has this name.
pub open spec fn named(k: Seq<char>) -> spec_fn((Seq<char>, Seq<char>)) -> bool {
    |p: (Seq<char>, Seq<char>)| p.0 == k
}

/// The list with the header set: the value of an existing header of that name
/// is replaced in place; otherwise the header is appended.
pub open spec fn with_header(h: Seq<(Seq<char>, Seq<char>)>, k: Seq<char>, v: Seq<char>) -> Seq<
    (Seq<char>, Seq<char>),
> {
    match first_index(h, named(k)) {
        Some(i) => h.update(i, (k, v)),
        None => h.push((k, v)),
    }
}

/// The list with the header set only if no header of that name is present.
pub open spec fn with_header_default(h: Seq<(Seq<char>, Seq<char>)>, k: Seq<char>, v: Seq<char>) -> Seq<
    (Seq<char>, Seq<char>),
> {
    match first_index(h, named(k)) {
        Some(i) => h,
        None => h.push((k, v)),
    }
}

/// The list with each of several headers set in turn.
pub open spec fn with_headers(h: Seq<(Seq<char>, Seq<char>)>, more: Seq<(Seq<char>, Seq<char>)>) -> Seq<
    (Seq<char>, Seq<char>),
>
    decreases more.len(),
{
    if more.len() == 0 {
        h
    } else {
        let prev = with_headers(h, more.drop_last());
        with_header(prev, more.last().0, more.last().1)
    }
}

/// Setting a header keeps names distinct.
pub proof fn lemma_with_header_distinct(h: Seq<(Seq<char>, Seq<char>)>, k: Seq<char>, v: Seq<char>)
    requires
        names_distinct(h),
    ensures
        names_distinct(with_header(h, k, v)),
        names_distinct(with_header_default(h, k, v)),
{
    match first_index(h, named(k)) {
        Some(i) => {
            let p = choose|i: int| crate::seq_util::is_first(h, named(k), i);
            assert(crate::seq_util::is_first(h, named(k), p));
            let r = h.update(i, (k, v));
            assert forall|a: int, b: int| 0 <= a < b < r.len() implies #[trigger] r[a].0 != #[trigger] r[b].0 by {
                assert(h[a].0 != h[b].0);
                assert(h[i].0 == k);
            }
        },
        None => {
            let r = h.push((k, v));
            assert forall|a: int, b: int| 0 <= a < b < r.len() implies #[trigger] r[a].0 != #[trigger] r[b].0 by {
                if b == h.len() {
                    if h[a].0 == k {
                        assert(named(k)(h[a]));
                        assert(exists|j: int| crate::seq_util::is_first(h, named(k), j)) by {
                            lemma_first_exists(h, named(k), a);
                        }
                    }
                } else {
                    assert(h[a].0 != h[b].0);
                }
            }
        },
    }
}

/// When some element satisfies `p`, a first one exists.
proof fn lemma_first_exists<T>(s: Seq<T>, p: spec_fn(T) -> bool, a: int)
    requires
        0 <= a < s.len(),
        p(s[a]),
    ensures
        exists|j: int| crate::seq_util::is_first(s, p, j),
    decreases a,
{
    if forall|j: int| 0 <= j < a ==> !p(#[trigger] s[j]) {
        assert(crate::seq_util::is_first(s, p, a));
    } else {
        let j = choose|j: int| 0 <= j < a && p(#[trigger] s[j]);
        lemma_first_exists(s, p, j);
    }
}

/// Set a header in a list: replace the value of the header with this exact
/// name, or append the header.
pub fn insert_header(headers: &mut Vec<(String, String)>, key: String, value: String)
    ensures
        pair_views(final(headers)@) == with_header(pair_views(old(headers)@), key@, value@),
{
    let ghost hv = pair_views(headers@);
    let mut i: usize = 0;
    while i < headers.len()
        invariant
            i <= headers@.len(),
            hv == pair_views(headers@),
            headers@ == old(headers)@,
            forall|j: int| 0 <= j < i ==> !named(key@)(#[trigger] hv[j]),
        decreases headers@.len() - i,
    {
        if headers[i].0 == key {
            proof {
                assert(crate::seq_util::is_first(hv, named(key@), i as int));
                lemma_first_index_is(hv, named(key@), i as int);
            }
            let kv = (key, value);
            let ghost kvv = (kv.0@, kv.1@);
            headers.set(i, kv);
            assert(pair_views(headers@) =~= hv.update(i as int, kvv));
            return;
        }
        i = i + 1;
    }
    proof {
        lemma_first_index_none(hv, named(key@));
    }
    let kv = (key, value);
    let ghost kvv = (kv.0@, kv.1@);
    headers.push(kv);
    assert(pair_views(headers@) =~= hv.push(kvv));
}

/// Set a header in a list only if no header has this exact name.
pub fn insert_header_default(headers: &mut Vec<(String, String)>, key: String, value: String)
    ensures
        pair_views(final(headers)@) == with_header_default(pair_views(old(headers)@), key@, value@),
{
    let ghost hv = pair_views(headers@);
    let mut i: usize = 0;
    while i < headers.len()
        invariant
            i <= headers@.len(),
            hv == pair_views(headers@),
            headers@ == old(headers)@,
            forall|j: int| 0 <= j < i ==> !named(key@)(#[trigger] hv[j]),
        decreases headers@.len() - i,
    {
        if headers[i].0 == key {
            proof {
                assert(crate::seq_util::is_first(hv, named(key@), i as int));
                lemma_first_index_is(hv, named(key@), i as int);
            }
            return;
        }
        i = i + 1;
    }
    proof {
        lemma_first_index_none(hv, named(key@));
    }
    let kv = (key, value);
    let ghost kvv = (kv.0@, kv.1@);
    headers.push(kv);
    assert(pair_views(headers@) =~= hv.push(kvv));
}


/// After a header is set, looking its name up finds the value that was set,
/// and names stay distinct (a read gives back what a write wrote).
pub proof fn law_header_read_after_write(h: Seq<(Seq<char>, Seq<char>)>, k: Seq<char>, v: Seq<char>)
    requires
        names_distinct(h),
    ensures
        first_index(with_header(h, k, v), named(k)) matches Some(i) && with_header(h, k, v)[i] == (k, v),
        names_distinct(with_header(h, k, v)),
        with_header(h, k, v).len() == if first_index(h, named(k)) is Some { h.len() } else { h.len() + 1 },
{
    lemma_with_header_distinct(h, k, v);
    let r = with_header(h, k, v);
    match first_index(h, named(k)) {
        Some(i) => {
            let p = choose|j: int| crate::seq_util::is_first(h, named(k), j);
            assert(crate::seq_util::is_first(h, named(k), p));
            assert forall|j: int| 0 <= j < i implies !named(k)(#[trigger] r[j]) by {
                assert(r[j] == h[j]);
            }
            assert(crate::seq_util::is_first(r, named(k), i));
            lemma_first_index_is(r, named(k), i);
        },
        None => {
            assert forall|j: int| 0 <= j < h.len() implies !named(k)(#[trigger] r[j]) by {
                assert(r[j] == h[j]);
                if named(k)(h[j]) {
                    lemma_first_exists(h, named(k), j);
                }
            }
            assert(crate::seq_util::is_first(r, named(k), h.len() as int));
            lemma_first_index_is(r, named(k), h.len() as int);
        },
    }
}

} // verus!
