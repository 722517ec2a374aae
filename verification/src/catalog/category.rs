//! Categories in the catalog hierarchy, with materialized paths of category
//! identifiers separated by `/`.
use vstd::prelude::*;
use crate::ids::CategoryId;
use crate::platform::push_char;
use crate::seq_util::{keep, lemma_keep_contains};
use crate::text::{count_char, lemma_split_on_concat, count_occurrences, hex_alphabet, hex_digits, lemma_count_char_add, split_on, split_str, starts_with, string_views};
use crate::time::current_timestamp;

verus! {

/// A product category in the catalog hierarchy.
#[derive(Debug, Clone)]
pub struct Category {
    /// Unique category identifier.
    pub id: CategoryId,
    /// Parent category ID (None for root categories).
    pub parent_id: Option<CategoryId>,
    /// Category name.
    pub name: String,
    /// URL-friendly slug.
    pub slug: String,
    /// Category description.
    pub description: Option<String>,
    /// Category image URL.
    pub image_url: Option<String>,
    /// Sort order position within parent.
    pub position: i32,
    /// Depth in the hierarchy (0 = root).
    pub level: i32,
    /// Materialized path for efficient tree queries (e.g., "1/5/12").
    pub path: String,
    /// Number of products in this category.
    pub product_count: i64,
    /// Unix timestamp of creation.
    pub created_at: i64,
    /// Unix timestamp of last update.
    pub updated_at: i64,
}

/// Non-empty path segments.
pub open spec fn segment_present() -> spec_fn(Seq<char>) -> bool {
    |s: Seq<char>| s.len() > 0
}

/// Non-empty path segments other than a category's own identifier.
pub open spec fn ancestor_segment(id: Seq<char>) -> spec_fn(Seq<char>) -> bool {
    |s: Seq<char>| s.len() > 0 && s != id
}

/// `a` is an ancestor of `b`: `b`'s path begins with `a`'s path followed by a
/// `/` (so `a`'s path is a whole number of `b`'s leading segments), and they
/// are different categories.
pub open spec fn ancestor_of(a: Category, b: Category) -> bool {
    a.path@.push('/').is_prefix_of(b.path@) && b.id@ != a.id@
}

/// Hexadecimal digit text holds no `/`.
pub proof fn lemma_hex_has_no_slash(n: nat)
    ensures
        count_char(hex_digits(n), '/') == 0,
    decreases n,
{
    if n >= 16 {
        lemma_hex_has_no_slash(n / 16);
    }
    let d = if n < 16 { n } else { n % 16 };
    assert(hex_alphabet()[d as int] != '/');
    assert(hex_digits(n).last() == hex_alphabet()[d as int]);
    if n < 16 {
        assert(hex_digits(n).drop_last() =~= Seq::<char>::empty());
        assert(count_char(Seq::<char>::empty(), '/') == 0);
    } else {
        assert(hex_digits(n).drop_last() =~= hex_digits(n / 16));
    }
}

fn segments_to_ids(parts: Vec<String>, skip_id: Option<&CategoryId>) -> (r: Vec<CategoryId>)
    ensures
        r@.map_values(|c: CategoryId| c@) == (match skip_id {
            Some(id) => keep(string_views(parts@), ancestor_segment(id@)),
            None => keep(string_views(parts@), segment_present()),
        }),
{
    let ghost p = match skip_id {
        Some(id) => ancestor_segment(id@),
        None => segment_present(),
    };
    let mut out: Vec<CategoryId> = Vec::new();
    let mut i: usize = 0;
    while i < parts.len()
        invariant
            i <= parts@.len(),
            p == (match skip_id {
                Some(id) => ancestor_segment(id@),
                None => segment_present(),
            }),
            out@.map_values(|c: CategoryId| c@) == keep(string_views(parts@.take(i as int)), p),
        decreases parts@.len() - i,
    {
        let seg = parts[i].as_str();
        let keep_it = if seg.unicode_len() == 0 {
            false
        } else {
            match skip_id {
                Some(id) => !crate::text::str_eq(seg, id.as_str()),
                None => true,
            }
        };
        assert(string_views(parts@.take(i + 1)) =~= string_views(parts@.take(i as int)).push(parts@[i as int]@));
        assert(string_views(parts@.take(i + 1)).drop_last() =~= string_views(parts@.take(i as int)));
        if keep_it {
            out.push(CategoryId::new(seg));
            assert(out@.map_values(|c: CategoryId| c@) =~= keep(string_views(parts@.take(i as int)), p).push(seg@));
        }
        i = i + 1;
    }
    assert(parts@.take(i as int) =~= parts@);
    out
}

impl Category {
    /// A new root category with a fresh identifier, at level 0, whose path is its
    /// own identifier.
    pub fn new_root(name: &str, slug: &str) -> (r: Self)
        ensures
            r.parent_id is None,
            r.name@ == name@,
            r.slug@ == slug@,
            r.description is None,
            r.image_url is None,
            r.position == 0,
            r.level == 0,
            r.path@ == r.id@,
            r.product_count == 0,
            r.created_at == r.updated_at,
            count_char(r.path@, '/') == 0,
            r.id@.len() > 0,
            count_char(r.id@, '/') == 0,
            split_on(r.path@, '/').last() == r.id@,
    {
        let id = CategoryId::generate();
        let now = current_timestamp();
        let path = id.as_str().to_string();
        proof {
            let n = choose|n: u64| id@ == hex_digits(n as nat);
            lemma_hex_has_no_slash(n as nat);
            lemma_hex_nonempty(n as nat);
            lemma_split_whole(id@);
        }
        Category {
            id,
            parent_id: None,
            name: name.to_string(),
            slug: slug.to_string(),
            description: None,
            image_url: None,
            position: 0,
            level: 0,
            path,
            product_count: 0,
            created_at: now,
            updated_at: now,
        }
    }

    /// A new child of a category, one level deeper, whose path is the parent's
    /// path, a `/` and its own fresh identifier.
    pub fn new_child(parent: &Category, name: &str, slug: &str) -> (r: Self)
        requires
            parent.level < i32::MAX,
        ensures
            r.parent_id == Some(parent.id),
            r.name@ == name@,
            r.slug@ == slug@,
            r.description is None,
            r.image_url is None,
            r.position == 0,
            r.level == parent.level + 1,
            r.path@ == parent.path@ + "/"@ + r.id@,
            r.product_count == 0,
            r.created_at == r.updated_at,
            count_char(r.path@, '/') == count_char(parent.path@, '/') + 1,
            r.id@.len() > 0,
            count_char(r.id@, '/') == 0,
            split_on(r.path@, '/').last() == r.id@,
    {
        let id = CategoryId::generate();
        let now = current_timestamp();
        let mut path = parent.path.clone();
        path.append("/");
        path.append(id.as_str());
        proof {
            let n = choose|n: u64| id@ == hex_digits(n as nat);
            lemma_hex_has_no_slash(n as nat);
            lemma_hex_nonempty(n as nat);
            reveal_strlit("/");
            assert(parent.path@ + "/"@ + id@ =~= parent.path@.push('/') + id@);
            lemma_split_extend(parent.path@, id@);
            assert("/"@ =~= seq!['/']);
            lemma_count_char_add(parent.path@ + "/"@, id@, '/');
            lemma_count_char_add(parent.path@, "/"@, '/');
            assert(count_char(seq!['/'], '/') == 1) by {
                assert(seq!['/'].drop_last() =~= Seq::<char>::empty());
                assert(count_char(Seq::<char>::empty(), '/') == 0);
                assert(seq!['/'].last() == '/');
            }
        }
        Category {
            id,
            parent_id: Some(parent.id.clone()),
            name: name.to_string(),
            slug: slug.to_string(),
            description: None,
            image_url: None,
            position: 0,
            level: parent.level + 1,
            path,
            product_count: 0,
            created_at: now,
            updated_at: now,
        }
    }

    /// Whether this is a root category.
    pub fn is_root(&self) -> (r: bool)
        ensures
            r == self.parent_id is None,
    {
        self.parent_id.is_none()
    }

    /// Whether this category is an ancestor of another.
    pub fn is_ancestor_of(&self, other: &Category) -> (r: bool)
        ensures
            r == ancestor_of(*self, *other),
    {
        let mut prefix = self.path.clone();
        push_char(&mut prefix, '/');
        starts_with(other.path.as_str(), prefix.as_str()) && other.id != self.id
    }

    /// Whether this category is a descendant of another.
    pub fn is_descendant_of(&self, other: &Category) -> (r: bool)
        ensures
            r == ancestor_of(*other, *self),
    {
        let mut prefix = other.path.clone();
        push_char(&mut prefix, '/');
        starts_with(self.path.as_str(), prefix.as_str()) && self.id != other.id
    }

    /// The identifiers of the ancestors, from the path: its non-empty segments
    /// other than this category's own identifier.
    pub fn ancestor_ids(&self) -> (r: Vec<CategoryId>)
        ensures
            r@.map_values(|c: CategoryId| c@) == keep(split_on(self.path@, '/'), ancestor_segment(self.id@)),
    {
        let parts = split_str(self.path.as_str(), '/');
        segments_to_ids(parts, Some(&self.id))
    }

    /// The identifiers along the full path: its non-empty segments.
    pub fn path_ids(&self) -> (r: Vec<CategoryId>)
        ensures
            r@.map_values(|c: CategoryId| c@) == keep(split_on(self.path@, '/'), segment_present()),
    {
        let parts = split_str(self.path.as_str(), '/');
        segments_to_ids(parts, None)
    }

    /// The breadcrumb depth: the number of `/` in the path.
    pub fn depth(&self) -> (r: usize)
        ensures
            r == count_char(self.path@, '/'),
    {
        count_occurrences(self.path.as_str(), '/')
    }
}

/// Hexadecimal digit text is never empty.
pub proof fn lemma_hex_nonempty(n: nat)
    ensures
        hex_digits(n).len() > 0,
    decreases n,
{
    if n >= 16 {
        lemma_hex_nonempty(n / 16);
    }
}

/// Splitting a path extended by `/` and a segment without `/` adds that segment.
pub proof fn lemma_split_extend(p: Seq<char>, w: Seq<char>)
    requires
        count_char(w, '/') == 0,
    ensures
        split_on(p.push('/') + w, '/') == split_on(p, '/').push(w),
    decreases w.len(),
{
    if w.len() == 0 {
        assert(p.push('/') + w =~= p.push('/'));
        assert(p.push('/').drop_last() =~= p);
        assert(w =~= Seq::<char>::empty());
        assert(split_on(p.push('/'), '/') == split_on(p, '/').push(Seq::<char>::empty()));
    } else {
        let s = p.push('/') + w;
        assert(s.drop_last() =~= p.push('/') + w.drop_last());
        assert(count_char(w.drop_last(), '/') == 0);
        assert(w.last() != '/');
        lemma_split_extend(p, w.drop_last());
        assert(s.last() == w.last());
        assert(w.drop_last().push(w.last()) =~= w);
        assert(split_on(s, '/') =~= split_on(p, '/').push(w));
    }
}

/// Keeping by two properties that agree on every element gives the same result.
pub proof fn lemma_keep_agree(s: Seq<Seq<char>>, p: spec_fn(Seq<char>) -> bool, q: spec_fn(Seq<char>) -> bool)
    requires
        forall|i: int| 0 <= i < s.len() ==> p(#[trigger] s[i]) == q(s[i]),
    ensures
        keep(s, p) == keep(s, q),
    decreases s.len(),
{
    if s.len() > 0 {
        assert forall|i: int| 0 <= i < s.drop_last().len() implies p(#[trigger] s.drop_last()[i]) == q(
            s.drop_last()[i],
        ) by {
            assert(s.drop_last()[i] == s[i]);
        }
        lemma_keep_agree(s.drop_last(), p, q);
        assert(p(s[s.len() - 1]) == q(s[s.len() - 1]));
    }
}

/// A new child's parent is its ancestor (when their identifiers differ), and no
/// category is its own ancestor.
pub proof fn law_parent_is_ancestor(parent: Category, child: Category)
    requires
        child.path@ == parent.path@ + "/"@ + child.id@,
        child.id@ != parent.id@,
    ensures
        ancestor_of(parent, child),
        !ancestor_of(child, child),
{
    reveal_strlit("/");
    assert(parent.path@.push('/') =~= child.path@.take(parent.path@.len() as int + 1));
}

/// Ancestry is transitive: an ancestor of an ancestor is again an ancestor,
/// provided the identifiers differ.
pub proof fn law_ancestor_transitive(a: Category, b: Category, c: Category)
    requires
        ancestor_of(a, b),
        ancestor_of(b, c),
        c.id@ != a.id@,
    ensures
        ancestor_of(a, c),
{
    let pa = a.path@.push('/');
    let pb = b.path@.push('/');
    assert(pa =~= c.path@.take(pa.len() as int)) by {
        assert(pa =~= b.path@.take(pa.len() as int));
        assert(pb =~= c.path@.take(pb.len() as int));
        assert forall|k: int| 0 <= k < pa.len() implies pa[k] == c.path@[k] by {
            assert(pa[k] == b.path@[k]);
            assert(b.path@[k] == pb[k]);
        }
    }
}

/// A new child extends its parent: its path identifiers are the parent's
/// followed by its own identifier, its ancestor identifiers are the parent's
/// path identifiers, and it is one level deeper. This holds when the child's
/// identifier is not empty, holds no `/`, and does not occur in the parent's
/// path (as `new_child` gives, with fresh identifiers).
pub proof fn law_child_extends_parent(parent: Category, child: Category)
    requires
        child.path@ == parent.path@ + "/"@ + child.id@,
        child.id@.len() > 0,
        count_char(child.id@, '/') == 0,
        !split_on(parent.path@, '/').contains(child.id@),
    ensures
        keep(split_on(child.path@, '/'), segment_present())
            == keep(split_on(parent.path@, '/'), segment_present()).push(child.id@),
        keep(split_on(child.path@, '/'), ancestor_segment(child.id@))
            == keep(split_on(parent.path@, '/'), segment_present()),
        count_char(child.path@, '/') == count_char(parent.path@, '/') + 1,
{
    reveal_strlit("/");
    assert(child.path@ =~= parent.path@.push('/') + child.id@);
    lemma_split_extend(parent.path@, child.id@);
    let sp = split_on(parent.path@, '/');
    let sc = split_on(child.path@, '/');
    assert(sc == sp.push(child.id@));
    assert(sc.drop_last() =~= sp);
    assert(keep(sc, segment_present()) == keep(sp, segment_present()).push(child.id@));
    assert(keep(sc, ancestor_segment(child.id@)) == keep(sp, ancestor_segment(child.id@)));
    assert forall|i: int| 0 <= i < sp.len() implies ancestor_segment(child.id@)(#[trigger] sp[i])
        == segment_present()(sp[i]) by {
        assert(sp.contains(sp[i]));
    }
    lemma_keep_agree(sp, ancestor_segment(child.id@), segment_present());
    lemma_count_char_add(parent.path@.push('/'), child.id@, '/');
    assert(parent.path@.push('/').drop_last() =~= parent.path@);
}

/// A text without `/` splits into itself alone.
pub proof fn lemma_split_whole(w: Seq<char>)
    requires
        count_char(w, '/') == 0,
    ensures
        split_on(w, '/') == seq![w],
    decreases w.len(),
{
    if w.len() > 0 {
        assert(count_char(w.drop_last(), '/') == 0);
        lemma_split_whole(w.drop_last());
        assert(w.drop_last().push(w.last()) =~= w);
    } else {
        assert(w =~= Seq::<char>::empty());
    }
}

/// An ancestor is listed among the ancestor identifiers: when `a` is an
/// ancestor of `b` and `a`'s path ends with its own (non-empty) identifier, as
/// `new_root` and `new_child` make it, then `b.ancestor_ids()` holds `a.id`.
pub proof fn law_ancestor_is_listed(a: Category, b: Category)
    requires
        ancestor_of(a, b),
        split_on(a.path@, '/').last() == a.id@,
        a.id@.len() > 0,
    ensures
        keep(split_on(b.path@, '/'), ancestor_segment(b.id@)).contains(a.id@),
{
    let n = a.path@.len() as int;
    let rest = b.path@.skip(n + 1);
    assert(b.path@ =~= a.path@.push('/') + rest) by {
        assert(a.path@.push('/') =~= b.path@.take(n + 1));
    }
    lemma_split_on_concat(a.path@, rest, '/');
    crate::text::lemma_split_on_nonempty(a.path@, '/');
    let sa = split_on(a.path@, '/');
    let sb = split_on(b.path@, '/');
    assert(sb[sa.len() - 1] == a.id@);
    assert(sb.contains(a.id@));
    lemma_keep_contains(sb, ancestor_segment(b.id@), a.id@);
}

} // verus!
