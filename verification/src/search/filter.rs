//! Search filters and the SQL each one stands for.
use vstd::prelude::*;
use crate::catalog::product::category_views;
use crate::ids::CategoryId;
use crate::money::Money;
use crate::text::{
    clone_strings, count_char, count_char_all, join, join_strs, lemma_count_char_add, lemma_count_char_join,
    lemma_count_char_split, signed_dec_digits, signed_dec_string, str_views, string_views,
};

verus! {

/// A search filter.
#[derive(Debug, Clone)]
pub enum Filter {
    /// Filter by single category.
    Category(CategoryId),
    /// Filter by multiple categories (OR).
    Categories(Vec<CategoryId>),
    /// Filter by price range.
    PriceRange { min: Option<Money>, max: Option<Money> },
    /// Only show in-stock items.
    InStock,
    /// Filter by tag.
    Tag(String),
    /// Filter by multiple tags (OR).
    Tags(Vec<String>),
    /// Filter by attribute/option (e.g., Color: Blue).
    Attribute { name: String, values: Vec<String> },
    /// Filter by minimum rating, held as the IEEE-754 bits of the rating.
    Rating { min_bits: u64 },
    /// Filter by product type.
    ProductType(String),
    /// Filter by product status.
    Status(String),
    /// Full-text search in name/description.
    Text(String),
    /// Filter by SKU prefix.
    SkuPrefix(String),
    /// Filter by date range.
    DateRange { field: String, start: Option<i64>, end: Option<i64> },
}

/// `n` SQL placeholders separated by commas ("?, ?, ?").
pub open spec fn placeholders(n: nat) -> Seq<char> {
    join(Seq::new(n, |i: int| "?"@), ", "@)
}

/// The conditions of a price range, in order: a lower bound, then an upper bound.
pub open spec fn price_clauses(min: Option<Money>, max: Option<Money>) -> Seq<Seq<char>> {
    (if min is Some { seq!["price_cents >= ?"@] } else { Seq::empty() }) + (if max is Some {
        seq!["price_cents <= ?"@]
    } else {
        Seq::empty()
    })
}

/// The bound values of a price range, as decimal text, in the order of the conditions.
pub open spec fn price_values(min: Option<Money>, max: Option<Money>) -> Seq<Seq<char>> {
    (match min {
        Some(m) => seq![signed_dec_digits(m.amount_cents as int)],
        None => Seq::empty(),
    }) + (match max {
        Some(m) => seq![signed_dec_digits(m.amount_cents as int)],
        None => Seq::empty(),
    })
}

/// The SQL condition of a filter and the values of its placeholders, in order.
/// Filters without a SQL form give the condition that always holds, "1=1".
pub open spec fn filter_sql(f: Filter) -> (Seq<char>, Seq<Seq<char>>) {
    match f {
        Filter::Category(id) => ("category_id = ?"@, seq![id@]),
        Filter::Categories(ids) => (
            "category_id IN ("@ + placeholders(ids@.len()) + ")"@,
            category_views(ids@),
        ),
        Filter::PriceRange { min, max } => (
            join(price_clauses(min, max), " AND "@),
            price_values(min, max),
        ),
        Filter::InStock => ("quantity > 0"@, Seq::empty()),
        Filter::Tag(tag) => ("id IN (SELECT product_id FROM product_tags WHERE tag = ?)"@, seq![tag@]),
        Filter::Tags(tags) => (
            "id IN (SELECT product_id FROM product_tags WHERE tag IN ("@ + placeholders(
                tags@.len(),
            ) + "))"@,
            string_views(tags@),
        ),
        Filter::Text(q) => (
            "(name LIKE ? OR description LIKE ?)"@,
            seq!["%"@ + q@ + "%"@, "%"@ + q@ + "%"@],
        ),
        Filter::Status(s) => ("status = ?"@, seq![s@]),
        Filter::ProductType(t) => ("product_type = ?"@, seq![t@]),
        Filter::SkuPrefix(p) => ("sku LIKE ?"@, seq![p@ + "%"@]),
        _ => ("1=1"@, Seq::empty()),
    }
}

/// The `?` counts of the fixed texts of the filter conditions.
pub proof fn lemma_sql_text_counts()
    ensures
        count_char("?"@, '?') == 1,
        count_char(", "@, '?') == 0,
        count_char(" AND "@, '?') == 0,
        count_char(")"@, '?') == 0,
        count_char("))"@, '?') == 0,
        count_char("1=1"@, '?') == 0,
        count_char("category_id = ?"@, '?') == 1,
        count_char("category_id IN ("@, '?') == 0,
        count_char("price_cents >= ?"@, '?') == 1,
        count_char("price_cents <= ?"@, '?') == 1,
        count_char("quantity > 0"@, '?') == 0,
        count_char("status = ?"@, '?') == 1,
        count_char("product_type = ?"@, '?') == 1,
        count_char("sku LIKE ?"@, '?') == 1,
{
    reveal_strlit("?");
    reveal_strlit(", ");
    reveal_strlit(" AND ");
    reveal_strlit(")");
    reveal_strlit("))");
    reveal_strlit("1=1");
    reveal_strlit("category_id = ?");
    reveal_strlit("category_id IN (");
    reveal_strlit("price_cents >= ?");
    reveal_strlit("price_cents <= ?");
    reveal_strlit("quantity > 0");
    reveal_strlit("status = ?");
    reveal_strlit("product_type = ?");
    reveal_strlit("sku LIKE ?");
    reveal_with_fuel(count_char, 18);
}

/// The `?` counts of the longer fixed texts of the filter conditions.
pub proof fn lemma_sql_long_text_counts()
    ensures
        count_char("id IN (SELECT product_id FROM product_tags WHERE tag = ?)"@, '?') == 1,
        count_char("id IN (SELECT product_id FROM product_tags WHERE tag IN ("@, '?') == 0,
        count_char("(name LIKE ? OR description LIKE ?)"@, '?') == 2,
{
    reveal_strlit("id IN (SELECT product_id FROM product_tags WHERE tag = ?)");
    reveal_strlit("id IN (SELECT product_id FROM product_tags WHERE tag IN (");
    reveal_strlit("(name LIKE ? OR description LIKE ?)");
    let a = "id IN (SELECT product_id FROM product_tags WHERE tag = ?)"@;
    let b = "id IN (SELECT product_id FROM product_tags WHERE tag IN ("@;
    let t = "(name LIKE ? OR description LIKE ?)"@;
    assert(a.len() == 57);
    assert(b.len() == 57);
    assert(t.len() == 35);
    lemma_count_char_split(a, 20, '?');
    lemma_count_char_split(a.skip(20), 20, '?');
    lemma_count_char_split(b, 20, '?');
    lemma_count_char_split(b.skip(20), 20, '?');
    lemma_count_char_split(t, 20, '?');
    reveal_with_fuel(count_char, 22);
    assert(count_char(a.take(20), '?') == 0);
    assert(count_char(a.skip(20).take(20), '?') == 0);
    assert(count_char(a.skip(20).skip(20), '?') == 1);
    assert(count_char(b.take(20), '?') == 0);
    assert(count_char(b.skip(20).take(20), '?') == 0);
    assert(count_char(b.skip(20).skip(20), '?') == 0);
    assert(count_char(t.take(20), '?') == 1);
    assert(count_char(t.skip(20), '?') == 1);
}

/// A list of `n` placeholders holds `n` question marks.
pub proof fn lemma_placeholders_count(n: nat)
    ensures
        count_char(placeholders(n), '?') == n,
{
    lemma_sql_text_counts();
    let parts = Seq::new(n, |i: int| "?"@);
    lemma_count_char_join(parts, ", "@, '?');
    lemma_count_all_marks(n);
}

/// `n` copies of "?" hold `n` question marks in all.
proof fn lemma_count_all_marks(n: nat)
    ensures
        count_char_all(Seq::new(n, |i: int| "?"@), '?') == n,
    decreases n,
{
    lemma_sql_text_counts();
    if n > 0 {
        assert(Seq::new(n, |i: int| "?"@).drop_last() =~= Seq::new((n - 1) as nat, |i: int| "?"@));
        lemma_count_all_marks((n - 1) as nat);
    }
}

/// Each filter's condition holds one `?` placeholder for each of its values.
pub proof fn lemma_filter_placeholders(f: Filter)
    ensures
        count_char(filter_sql(f).0, '?') == filter_sql(f).1.len(),
{
    lemma_sql_text_counts();
    lemma_sql_long_text_counts();
    match &f {
        Filter::Categories(ids) => {
            lemma_placeholders_count(ids@.len());
            lemma_count_char_add("category_id IN ("@, placeholders(ids@.len()), '?');
            lemma_count_char_add("category_id IN ("@ + placeholders(ids@.len()), ")"@, '?');
            assert(category_views(ids@).len() == ids@.len());
            assert(filter_sql(f).0 == "category_id IN ("@ + placeholders(ids@.len()) + ")"@);
            assert(count_char("category_id IN ("@ + placeholders(ids@.len()), '?') == ids@.len());
        },
        Filter::PriceRange { min, max } => {
            let (min, max) = (*min, *max);
            let cl = price_clauses(min, max);
            lemma_count_char_join(cl, " AND "@, '?');
            let lo: Seq<Seq<char>> = if min is Some { seq!["price_cents >= ?"@] } else { Seq::empty() };
            let hi: Seq<Seq<char>> = if max is Some { seq!["price_cents <= ?"@] } else { Seq::empty() };
            assert(cl == lo + hi);
            let pv = price_values(min, max);
            assert(count_char_all(Seq::<Seq<char>>::empty(), '?') == 0);
            assert(min is Some ==> lo.last() == "price_cents >= ?"@);
            assert(max is Some ==> hi.last() == "price_cents <= ?"@);
            if min is Some && max is Some {
                assert(cl.drop_last() =~= lo);
                assert(lo.drop_last() =~= Seq::<Seq<char>>::empty());
                assert(count_char_all(lo, '?') == 1);
                assert(cl.last() == "price_cents <= ?"@);
                assert(pv.len() == 2);
            } else if min is Some {
                assert(cl =~= lo);
                assert(lo.drop_last() =~= Seq::<Seq<char>>::empty());
                assert(count_char_all(lo, '?') == 1);
                assert(pv.len() == 1);
            } else if max is Some {
                assert(cl =~= hi);
                assert(hi.drop_last() =~= Seq::<Seq<char>>::empty());
                assert(count_char_all(hi, '?') == 1);
                assert(pv.len() == 1);
            } else {
                assert(cl =~= Seq::<Seq<char>>::empty());
                assert(pv.len() == 0);
            }
            assert(count_char_all(cl, '?') == price_values(min, max).len());
            assert(count_char(filter_sql(f).0, '?') == filter_sql(f).1.len());
        },
        Filter::Tags(tags) => {
            let pre = "id IN (SELECT product_id FROM product_tags WHERE tag IN ("@;
            lemma_placeholders_count(tags@.len());
            lemma_count_char_add(pre, placeholders(tags@.len()), '?');
            lemma_count_char_add(pre + placeholders(tags@.len()), "))"@, '?');
            assert(string_views(tags@).len() == tags@.len());
            assert(count_char(filter_sql(f).0, '?') == filter_sql(f).1.len());
        },
        Filter::Text(q) => {
            assert(filter_sql(f).0 == "(name LIKE ? OR description LIKE ?)"@);
            assert(filter_sql(f).1.len() == 2);
            assert(count_char(filter_sql(f).0, '?') == filter_sql(f).1.len());
        },
        Filter::Tag(tag) => {
            assert(filter_sql(f).1.len() == 1);
            assert(count_char(filter_sql(f).0, '?') == filter_sql(f).1.len());
        },
        _ => {},
    }
}

/// `n` placeholders joined with commas.
fn placeholder_list(n: usize) -> (r: String)
    ensures
        r@ == placeholders(n as nat),
{
    let mut marks: Vec<&str> = Vec::new();
    let mut i: usize = 0;
    while i < n
        invariant
            i <= n,
            str_views(marks@) =~= Seq::new(i as nat, |k: int| "?"@),
        decreases n - i,
    {
        let ghost before = marks@;
        marks.push("?");
        assert(str_views(marks@) =~= str_views(before).push("?"@));
        i = i + 1;
    }
    join_strs(&marks, ", ")
}

/// The texts of a list of category identifiers.
fn category_texts(ids: &Vec<CategoryId>) -> (r: Vec<String>)
    ensures
        string_views(r@) == category_views(ids@),
{
    let mut out: Vec<String> = Vec::new();
    let mut i: usize = 0;
    while i < ids.len()
        invariant
            i <= ids@.len(),
            string_views(out@) =~= category_views(ids@.take(i as int)),
        decreases ids@.len() - i,
    {
        let t = ids[i].as_str().to_string();
        let ghost before = out@;
        out.push(t);
        assert(string_views(out@) =~= string_views(before).push(t@));
        assert(ids@.take(i + 1) =~= ids@.take(i as int).push(ids@[i as int]));
        i = i + 1;
    }
    assert(ids@.take(i as int) =~= ids@);
    out
}

/// `prefix`, the text, then `suffix`.
fn surround(prefix: &str, text: &str, suffix: &str) -> (r: String)
    ensures
        r@ == prefix@ + text@ + suffix@,
{
    let mut s = prefix.to_string();
    s.append(text);
    s.append(suffix);
    s
}

impl Filter {
    /// A single-category filter.
    pub fn category(id: CategoryId) -> (r: Self)
        ensures
            r == Filter::Category(id),
    {
        Filter::Category(id)
    }

    /// A price range filter.
    pub fn price_range(min: Option<Money>, max: Option<Money>) -> (r: Self)
        ensures
            r == (Filter::PriceRange { min, max }),
    {
        Filter::PriceRange { min, max }
    }

    /// An in-stock filter.
    pub fn in_stock() -> (r: Self)
        ensures
            r == Filter::InStock,
    {
        Filter::InStock
    }

    /// A tag filter.
    pub fn tag(tag: &str) -> (r: Self)
        ensures
            r matches Filter::Tag(t) && t@ == tag@,
    {
        Filter::Tag(tag.to_string())
    }

    /// An attribute filter.
    pub fn attribute(name: &str, values: Vec<String>) -> (r: Self)
        ensures
            r matches Filter::Attribute { name: n, values: v } && n@ == name@ && v == values,
    {
        Filter::Attribute { name: name.to_string(), values }
    }

    /// A full-text filter.
    pub fn text(query: &str) -> (r: Self)
        ensures
            r matches Filter::Text(q) && q@ == query@,
    {
        Filter::Text(query.to_string())
    }

    /// The SQL condition of this filter and the values of its placeholders.
    pub fn to_sql(&self) -> (r: (String, Vec<String>))
        ensures
            r.0@ == filter_sql(*self).0,
            string_views(r.1@) == filter_sql(*self).1,
    {
        match self {
            Filter::Category(id) => {
                let mut values: Vec<String> = Vec::new();
                values.push(id.as_str().to_string());
                assert(string_views(values@) =~= seq![id@]);
                ("category_id = ?".to_string(), values)
            },
            Filter::Categories(ids) => {
                let marks = placeholder_list(ids.len());
                (surround("category_id IN (", marks.as_str(), ")"), category_texts(ids))
            },
            Filter::PriceRange { min, max } => {
                let mut clauses: Vec<&str> = Vec::new();
                let mut values: Vec<String> = Vec::new();
                if let Some(m) = min {
                    clauses.push("price_cents >= ?");
                    values.push(signed_dec_string(m.amount_cents));
                }
                if let Some(m) = max {
                    clauses.push("price_cents <= ?");
                    values.push(signed_dec_string(m.amount_cents));
                }
                assert(str_views(clauses@) =~= price_clauses(*min, *max));
                assert(string_views(values@) =~= price_values(*min, *max));
                (join_strs(&clauses, " AND "), values)
            },
            Filter::InStock => {
                let values: Vec<String> = Vec::new();
                assert(string_views(values@) =~= Seq::<Seq<char>>::empty());
                ("quantity > 0".to_string(), values)
            },
            Filter::Tag(tag) => {
                let mut values: Vec<String> = Vec::new();
                values.push(tag.clone());
                assert(string_views(values@) =~= seq![tag@]);
                ("id IN (SELECT product_id FROM product_tags WHERE tag = ?)".to_string(), values)
            },
            Filter::Tags(tags) => {
                let marks = placeholder_list(tags.len());
                (
                    surround(
                        "id IN (SELECT product_id FROM product_tags WHERE tag IN (",
                        marks.as_str(),
                        "))",
                    ),
                    clone_strings(tags),
                )
            },
            Filter::Text(query) => {
                let mut values: Vec<String> = Vec::new();
                values.push(surround("%", query.as_str(), "%"));
                values.push(surround("%", query.as_str(), "%"));
                assert(string_views(values@) =~= seq!["%"@ + query@ + "%"@, "%"@ + query@ + "%"@]);
                ("(name LIKE ? OR description LIKE ?)".to_string(), values)
            },
            Filter::Status(status) => {
                let mut values: Vec<String> = Vec::new();
                values.push(status.clone());
                assert(string_views(values@) =~= seq![status@]);
                ("status = ?".to_string(), values)
            },
            Filter::ProductType(pt) => {
                let mut values: Vec<String> = Vec::new();
                values.push(pt.clone());
                assert(string_views(values@) =~= seq![pt@]);
                ("product_type = ?".to_string(), values)
            },
            Filter::SkuPrefix(prefix) => {
                let mut values: Vec<String> = Vec::new();
                values.push(surround("", prefix.as_str(), "%"));
                assert(""@ =~= Seq::<char>::empty()) by {
                    reveal_strlit("");
                }
                assert(string_views(values@) =~= seq![prefix@ + "%"@]);
                ("sku LIKE ?".to_string(), values)
            },
            _ => {
                let values: Vec<String> = Vec::new();
                assert(string_views(values@) =~= Seq::<Seq<char>>::empty());
                ("1=1".to_string(), values)
            },
        }
    }
}

/// A price range binds each placeholder to its own bound: the lower bound's
/// amount to `price_cents >= ?` and the upper bound's to `price_cents <= ?`,
/// lower bound first.
pub proof fn law_price_range_binds_each_bound(min: Option<Money>, max: Option<Money>)
    ensures
        (min matches Some(a) && max matches Some(b)) ==> filter_sql(Filter::PriceRange { min, max }) == (
            "price_cents >= ? AND price_cents <= ?"@,
            seq![signed_dec_digits(min->0.amount_cents as int), signed_dec_digits(max->0.amount_cents as int)],
        ),
        (min matches Some(a) && max is None) ==> filter_sql(Filter::PriceRange { min, max }) == (
            "price_cents >= ?"@,
            seq![signed_dec_digits(min->0.amount_cents as int)],
        ),
        (min is None && max matches Some(b)) ==> filter_sql(Filter::PriceRange { min, max }) == (
            "price_cents <= ?"@,
            seq![signed_dec_digits(max->0.amount_cents as int)],
        ),
        (min is None && max is None) ==> filter_sql(Filter::PriceRange { min, max }).1.len() == 0,
{
    reveal_strlit("price_cents >= ?");
    reveal_strlit("price_cents <= ?");
    reveal_strlit(" AND ");
    reveal_strlit("price_cents >= ? AND price_cents <= ?");
    let cl = price_clauses(min, max);
    let pv = price_values(min, max);
    if min is Some && max is Some {
        assert(cl =~= seq!["price_cents >= ?"@, "price_cents <= ?"@]);
        assert(cl.drop_last() =~= seq!["price_cents >= ?"@]);
        assert(join(cl.drop_last(), " AND "@) == "price_cents >= ?"@);
        assert(join(cl, " AND "@) == "price_cents >= ?"@ + " AND "@ + "price_cents <= ?"@);
        assert("price_cents >= ?"@ + " AND "@ + "price_cents <= ?"@ =~= "price_cents >= ? AND price_cents <= ?"@);
        assert(pv =~= seq![signed_dec_digits(min->0.amount_cents as int), signed_dec_digits(max->0.amount_cents as int)]);
    } else if min is Some {
        assert(cl =~= seq!["price_cents >= ?"@]);
        assert(pv =~= seq![signed_dec_digits(min->0.amount_cents as int)]);
    } else if max is Some {
        assert(cl =~= seq!["price_cents <= ?"@]);
        assert(pv =~= seq![signed_dec_digits(max->0.amount_cents as int)]);
    } else {
        assert(pv =~= Seq::<Seq<char>>::empty());
    }
}

} // verus!
