//! Ordering deployments and recordings newest first, and choosing the version a
//! rollback returns to.
use vstd::prelude::*;
use crate::text::chars_of;
use crate::text::{str_eq, string_views};

verus! {

/// Whether text `a` comes before text `b` in the order of their characters
/// (the order of `str`, since UTF-8 keeps the order of code points).
pub open spec fn text_lt(a: Seq<char>, b: Seq<char>) -> bool
    decreases a.len(),
{
    if a.len() == 0 {
        b.len() > 0
    } else if b.len() == 0 {
        false
    } else if a[0] != b[0] {
        a[0] < b[0]
    } else {
        text_lt(a.drop_first(), b.drop_first())
    }
}

/// No text comes before itself.
pub proof fn lemma_text_lt_irreflexive(a: Seq<char>)
    ensures
        !text_lt(a, a),
    decreases a.len(),
{
    if a.len() > 0 {
        lemma_text_lt_irreflexive(a.drop_first());
    }
}

/// The order is transitive.
pub proof fn lemma_text_lt_transitive(a: Seq<char>, b: Seq<char>, c: Seq<char>)
    requires
        text_lt(a, b),
        text_lt(b, c),
    ensures
        text_lt(a, c),
    decreases a.len(),
{
    if a.len() > 0 && b.len() > 0 && c.len() > 0 && a[0] == b[0] && b[0] == c[0] {
        lemma_text_lt_transitive(a.drop_first(), b.drop_first(), c.drop_first());
    }
}

/// Of two different texts, one comes before the other.
pub proof fn lemma_text_lt_total(a: Seq<char>, b: Seq<char>)
    ensures
        a != b ==> text_lt(a, b) || text_lt(b, a),
        !(text_lt(a, b) && text_lt(b, a)),
    decreases a.len(),
{
    if a.len() > 0 && b.len() > 0 && a[0] == b[0] {
        lemma_text_lt_total(a.drop_first(), b.drop_first());
        if a.drop_first() == b.drop_first() {
            assert(a =~= seq![a[0]] + a.drop_first());
            assert(b =~= seq![b[0]] + b.drop_first());
        }
    } else if a.len() == 0 && b.len() == 0 {
        assert(a =~= b);
    }
}

/// Whether one text comes before another.
pub fn text_less(a: &str, b: &str) -> (r: bool)
    ensures
        r == text_lt(a@, b@),
{
    let x = chars_of(a);
    let y = chars_of(b);
    let mut i: usize = 0;
    assert(x@.skip(0) =~= x@);
    assert(y@.skip(0) =~= y@);
    while i < x.len() && i < y.len() && x[i] == y[i]
        invariant
            i <= x@.len(),
            i <= y@.len(),
            x@ == a@,
            y@ == b@,
            text_lt(x@.skip(i as int), y@.skip(i as int)) == text_lt(a@, b@),
        decreases x@.len() - i,
    {
        assert(x@.skip(i as int).drop_first() =~= x@.skip(i + 1));
        assert(y@.skip(i as int).drop_first() =~= y@.skip(i + 1));
        i = i + 1;
    }
    if i == x.len() {
        i < y.len()
    } else if i == y.len() {
        false
    } else {
        x[i] < y[i]
    }
}

/// `order` lists each index of `keys` once, newest (greatest) key first, and
/// indices of equal keys in their original order (a stable sort).
pub open spec fn is_newest_first(keys: Seq<Seq<char>>, order: Seq<usize>) -> bool {
    &&& order.len() == keys.len()
    &&& forall|i: int| 0 <= i < order.len() ==> order[i] < keys.len()
    &&& forall|i: int, j: int| 0 <= i < j < order.len() ==> order[i] != order[j]
    &&& forall|i: int, j: int|
        0 <= i < j < order.len() ==> !text_lt(#[trigger] keys[order[i] as int], #[trigger] keys[order[j] as int])
    &&& forall|i: int, j: int|
        0 <= i < j < order.len() && keys[order[i] as int] == keys[order[j] as int] ==> order[i] < order[j]
}

/// The indices of the keys, newest first (stable for equal keys).
pub fn newest_first(keys: &Vec<String>) -> (r: Vec<usize>)
    ensures
        is_newest_first(string_views(keys@), r@),
{
    let ghost kv = string_views(keys@);
    let n = keys.len();
    let mut out: Vec<usize> = Vec::new();
    let mut i: usize = 0;
    while i < n
        invariant
            n == keys@.len(),
            kv == string_views(keys@),
            i <= n,
            out@.len() == i,
            forall|a: int| 0 <= a < out@.len() ==> out@[a] < i,
            forall|a: int, b: int| 0 <= a < b < out@.len() ==> out@[a] != out@[b],
            forall|a: int, b: int|
                0 <= a < b < out@.len() ==> !text_lt(#[trigger] kv[out@[a] as int], #[trigger] kv[out@[b] as int]),
            forall|a: int, b: int|
                0 <= a < b < out@.len() && kv[out@[a] as int] == kv[out@[b] as int] ==> out@[a] < out@[b],
        decreases n - i,
    {
        let mut pos: usize = 0;
        while pos < out.len() && !text_less(keys[out[pos]].as_str(), keys[i].as_str())
            invariant
                pos <= out@.len(),
                i < n == keys@.len(),
                kv == string_views(keys@),
                forall|a: int| 0 <= a < out@.len() ==> out@[a] < i,
                forall|a: int| 0 <= a < pos ==> !text_lt(kv[out@[a] as int], kv[i as int]),
            decreases out@.len() - pos,
        {
            pos = pos + 1;
        }
        let ghost old_out = out@;
        proof {
            assert forall|b: int| pos <= b < old_out.len() implies text_lt(
                kv[old_out[b] as int],
                kv[i as int],
            ) by {
                if b > pos {
                    let x = kv[old_out[pos as int] as int];
                    let y = kv[old_out[b] as int];
                    assert(!text_lt(x, y));
                    lemma_text_lt_total(x, y);
                    if x == y {
                    } else {
                        lemma_text_lt_transitive(y, x, kv[i as int]);
                    }
                }
            }
        }
        out.insert(pos, i);
        proof {
            assert(out@ =~= old_out.insert(pos as int, i));
            assert forall|a: int, b: int| 0 <= a < b < out@.len() implies !text_lt(
                #[trigger] kv[out@[a] as int],
                #[trigger] kv[out@[b] as int],
            ) by {
                if a < pos && b == pos {
                } else if a == pos && b > pos {
                    let y = kv[old_out[b - 1] as int];
                    lemma_text_lt_total(y, kv[i as int]);
                } else if a < pos && b > pos {
                    assert(out@[b] == old_out[b - 1]);
                } else if b < pos {
                } else {
                    assert(out@[a] == old_out[a - 1]);
                    assert(out@[b] == old_out[b - 1]);
                }
            }
            assert forall|a: int, b: int|
                0 <= a < b < out@.len() && kv[out@[a] as int] == kv[out@[b] as int] implies out@[a]
                < out@[b] by {
                if a == pos {
                    let y = kv[old_out[b - 1] as int];
                    lemma_text_lt_irreflexive(y);
                } else if b == pos {
                } else if a < pos && b > pos {
                    assert(out@[b] == old_out[b - 1]);
                } else if a > pos {
                    assert(out@[a] == old_out[a - 1]);
                    assert(out@[b] == old_out[b - 1]);
                }
            }
            assert forall|a: int, b: int| 0 <= a < b < out@.len() implies out@[a] != out@[b] by {
                if a != pos && b != pos {
                    let a2 = if a < pos { a } else { a - 1 };
                    let b2 = if b < pos { b } else { b - 1 };
                    assert(out@[a] == old_out[a2]);
                    assert(out@[b] == old_out[b2]);
                }
            }
        }
        i = i + 1;
    }
    out
}

/// What a rollback returns to.
#[derive(Debug, Clone)]
pub enum RollbackTarget {
    /// The version asked for.
    Named(String),
    /// The version before the current one (the second newest).
    Previous,
    /// Ask which version to return to.
    Ask,
}

/// Why a rollback cannot be planned.
#[derive(Debug, Clone)]
pub enum RollbackError {
    /// Fewer than two versions are deployed.
    NotEnoughVersions,
    /// The version asked for is not deployed.
    VersionNotFound(String),
}

/// The message of a rollback error.
pub open spec fn rollback_error_message(e: RollbackError) -> Seq<char> {
    match e {
        RollbackError::NotEnoughVersions => "Not enough versions to rollback. Need at least 2 versions."@,
        RollbackError::VersionNotFound(v) => "Version '"@ + v@ + "' not found"@,
    }
}

impl RollbackError {
    /// The error message.
    pub fn message(&self) -> (r: String)
        ensures
            r@ == rollback_error_message(*self),
    {
        match self {
            RollbackError::NotEnoughVersions => "Not enough versions to rollback. Need at least 2 versions.".to_string(),
            RollbackError::VersionNotFound(v) => {
                let mut s = "Version '".to_string();
                s.append(v.as_str());
                s.append("' not found");
                s
            },
        }
    }
}

/// Choose the version a rollback returns to, among the deployed versions: the
/// one asked for if it is deployed, else the previous one when no question may
/// be asked, else ask. At least two versions must be deployed.
pub fn choose_rollback_target(versions: &Vec<String>, to: &Option<String>, yes: bool) -> (r: Result<
    RollbackTarget,
    RollbackError,
>)
    ensures
        versions@.len() < 2 ==> r matches Err(RollbackError::NotEnoughVersions),
        versions@.len() >= 2 ==> (to matches Some(t) ==> (string_views(versions@).contains(t@) ==> (
        r matches Ok(RollbackTarget::Named(v)) && v@ == t@))),
        versions@.len() >= 2 ==> (to matches Some(t) ==> (!string_views(versions@).contains(t@) ==> (
        r matches Err(RollbackError::VersionNotFound(v)) && v@ == t@))),
        versions@.len() >= 2 && to is None && yes ==> r matches Ok(RollbackTarget::Previous),
        versions@.len() >= 2 && to is None && !yes ==> r matches Ok(RollbackTarget::Ask),
{
    if versions.len() < 2 {
        return Err(RollbackError::NotEnoughVersions);
    }
    match to {
        Some(t) => {
            let mut found = false;
            let mut i: usize = 0;
            while i < versions.len() && !found
                invariant
                    i <= versions@.len(),
                    found ==> string_views(versions@).contains(t@),
                    !found ==> forall|j: int| 0 <= j < i ==> versions@[j]@ != t@,
                decreases versions@.len() - i,
            {
                if str_eq(versions[i].as_str(), t.as_str()) {
                    assert(string_views(versions@)[i as int] == t@);
                    found = true;
                }
                i = i + 1;
            }
            if found {
                Ok(RollbackTarget::Named(t.clone()))
            } else {
                assert(!string_views(versions@).contains(t@)) by {
                    if string_views(versions@).contains(t@) {
                        let j = choose|j: int|
                            0 <= j < string_views(versions@).len() && string_views(versions@)[j] == t@;
                        assert(versions@[j]@ == t@);
                    }
                }
                Err(RollbackError::VersionNotFound(t.clone()))
            }
        },
        None => if yes {
            Ok(RollbackTarget::Previous)
        } else {
            Ok(RollbackTarget::Ask)
        },
    }
}

} // verus!
