//! Search queries and the SQL they build.
use vstd::prelude::*;
use crate::money::fits_i64;
use crate::search::filter::{filter_sql, lemma_filter_placeholders, lemma_sql_text_counts, Filter};
use crate::text::{
    count_char, count_char_all, join, join_strings, lemma_count_char_add, lemma_count_char_join, signed_dec_digits,
    signed_dec_string, str_eq, string_views,
};

verus! {

/// Sort options for search results.
#[derive(Debug, Clone, Copy, PartialEq, Eq, Structural, Hash)]
pub enum SortOption {
    /// Sort by relevance (default for text search).
    Relevance,
    /// Sort by price, low to high.
    PriceAsc,
    /// Sort by price, high to low.
    PriceDesc,
    /// Sort by name A-Z.
    NameAsc,
    /// Sort by name Z-A.
    NameDesc,
    /// Sort by newest first.
    Newest,
    /// Sort by oldest first.
    Oldest,
    /// Sort by best selling.
    BestSelling,
    /// Sort by highest rated.
    Rating,
    /// Sort by position/manual order.
    Position,
}

/// The SQL ordering of a sort option (relevance falls back to newest first).
pub open spec fn sort_sql(s: SortOption) -> Seq<char> {
    match s {
        SortOption::Relevance => "created_at DESC"@,
        SortOption::PriceAsc => "price_cents ASC"@,
        SortOption::PriceDesc => "price_cents DESC"@,
        SortOption::NameAsc => "name ASC"@,
        SortOption::NameDesc => "name DESC"@,
        SortOption::Newest => "created_at DESC"@,
        SortOption::Oldest => "created_at ASC"@,
        SortOption::BestSelling => "sales_count DESC"@,
        SortOption::Rating => "average_rating DESC"@,
        SortOption::Position => "position ASC"@,
    }
}

/// The label of a sort option shown to shoppers.
pub open spec fn sort_label(s: SortOption) -> Seq<char> {
    match s {
        SortOption::Relevance => "Relevance"@,
        SortOption::PriceAsc => "Price: Low to High"@,
        SortOption::PriceDesc => "Price: High to Low"@,
        SortOption::NameAsc => "Name: A-Z"@,
        SortOption::NameDesc => "Name: Z-A"@,
        SortOption::Newest => "Newest"@,
        SortOption::Oldest => "Oldest"@,
        SortOption::BestSelling => "Best Selling"@,
        SortOption::Rating => "Highest Rated"@,
        SortOption::Position => "Featured"@,
    }
}

impl SortOption {
    /// The SQL ORDER BY expression.
    pub fn to_sql(&self) -> (r: &'static str)
        ensures
            r@ == sort_sql(*self),
    {
        match self {
            SortOption::Relevance => "created_at DESC",
            SortOption::PriceAsc => "price_cents ASC",
            SortOption::PriceDesc => "price_cents DESC",
            SortOption::NameAsc => "name ASC",
            SortOption::NameDesc => "name DESC",
            SortOption::Newest => "created_at DESC",
            SortOption::Oldest => "created_at ASC",
            SortOption::BestSelling => "sales_count DESC",
            SortOption::Rating => "average_rating DESC",
            SortOption::Position => "position ASC",
        }
    }

    /// The label shown to shoppers.
    pub fn display_name(&self) -> (r: &'static str)
        ensures
            r@ == sort_label(*self),
    {
        match self {
            SortOption::Relevance => "Relevance",
            SortOption::PriceAsc => "Price: Low to High",
            SortOption::PriceDesc => "Price: High to Low",
            SortOption::NameAsc => "Name: A-Z",
            SortOption::NameDesc => "Name: Z-A",
            SortOption::Newest => "Newest",
            SortOption::Oldest => "Oldest",
            SortOption::BestSelling => "Best Selling",
            SortOption::Rating => "Highest Rated",
            SortOption::Position => "Featured",
        }
    }
}

impl Default for SortOption {
    fn default() -> (r: Self)
        ensures
            r == SortOption::Relevance,
    {
        SortOption::Relevance
    }
}

/// A search query.
#[derive(Debug, Clone)]
pub struct SearchQuery {
    /// Text query (for full-text search).
    pub query: Option<String>,
    /// Filters to apply.
    pub filters: Vec<Filter>,
    /// Sort option.
    pub sort: SortOption,
    /// Current page (1-indexed).
    pub page: i64,
    /// Items per page.
    pub per_page: i64,
    /// Whether to include facets in results.
    pub include_facets: bool,
}

/// The conditions that the filters contribute, each in parentheses, and the
/// values of their placeholders: filters whose condition is empty or "1=1"
/// contribute nothing.
pub open spec fn where_parts(fs: Seq<Filter>) -> (Seq<Seq<char>>, Seq<Seq<char>>)
    decreases fs.len(),
{
    if fs.len() == 0 {
        (Seq::empty(), Seq::empty())
    } else {
        let (clauses, values) = where_parts(fs.drop_last());
        let (sql, vals) = filter_sql(fs.last());
        if sql.len() > 0 && sql != "1=1"@ {
            (clauses.push("("@ + sql + ")"@), values + vals)
        } else {
            (clauses, values)
        }
    }
}

/// The WHERE condition of a list of filters and its values: the contributed
/// conditions joined with AND, or "1=1" with no values when there are none.
pub open spec fn where_clause(fs: Seq<Filter>) -> (Seq<char>, Seq<Seq<char>>) {
    let (clauses, values) = where_parts(fs);
    if clauses.len() == 0 {
        ("1=1"@, Seq::empty())
    } else {
        (join(clauses, " AND "@), values)
    }
}

/// The number of results before the query's page.
pub open spec fn query_offset(q: SearchQuery) -> int {
    (q.page - 1) * q.per_page
}

/// The offset of the query's page can be computed without overflow.
pub open spec fn query_offset_computable(q: SearchQuery) -> bool {
    fits_i64(q.page - 1) && fits_i64((q.page - 1) * q.per_page)
}

/// `x` clamped to `[lo, hi]`.
pub open spec fn clamp_int(x: int, lo: int, hi: int) -> int {
    if x < lo {
        lo
    } else if x > hi {
        hi
    } else {
        x
    }
}

impl SearchQuery {
    /// A query for the first page of 24 results, by relevance, with no filters.
    pub fn new() -> (r: Self)
        ensures
            r.query is None,
            r.filters@.len() == 0,
            r.sort == SortOption::Relevance,
            r.page == 1,
            r.per_page == 24,
            !r.include_facets,
    {
        SearchQuery {
            query: None,
            filters: Vec::new(),
            sort: SortOption::Relevance,
            page: 1,
            per_page: 24,
            include_facets: false,
        }
    }

    /// Set the text query: a non-empty text is kept and also added as a text filter;
    /// an empty one changes nothing.
    pub fn with_query(self, q: &str) -> (r: Self)
        ensures
            q@.len() == 0 ==> r == self,
            q@.len() > 0 ==> {
                &&& r.query matches Some(t) && t@ == q@
                &&& r.filters@.len() == self.filters@.len() + 1
                &&& r.filters@.drop_last() == self.filters@
                &&& r.filters@.last() matches Filter::Text(t) && t@ == q@
                &&& r.sort == self.sort && r.page == self.page && r.per_page == self.per_page
                &&& r.include_facets == self.include_facets
            },
    {
        let mut s = self;
        if !q.is_empty() {
            s.query = Some(q.to_string());
            s.filters.push(Filter::Text(q.to_string()));
            assert(s.filters@.drop_last() =~= self.filters@);
        }
        s
    }

    /// Add a filter.
    pub fn with_filter(self, filter: Filter) -> (r: Self)
        ensures
            r == (SearchQuery { filters: r.filters, ..self }),
            r.filters@ == self.filters@.push(filter),
    {
        let mut s = self;
        s.filters.push(filter);
        s
    }

    /// Set the sort option.
    pub fn with_sort(self, sort: SortOption) -> (r: Self)
        ensures
            r == (SearchQuery { sort, ..self }),
    {
        let mut s = self;
        s.sort = sort;
        s
    }

    /// Set the page (at least 1) and the page size (between 1 and 100).
    pub fn with_pagination(self, page: i64, per_page: i64) -> (r: Self)
        ensures
            r == (SearchQuery {
                page: if page < 1 { 1 } else { page },
                per_page: clamp_int(per_page as int, 1, 100) as i64,
                ..self
            }),
    {
        let mut s = self;
        s.page = if page < 1 { 1 } else { page };
        s.per_page = if per_page < 1 { 1 } else if per_page > 100 { 100 } else { per_page };
        s
    }

    /// Ask for facets in the results.
    pub fn with_facets(self) -> (r: Self)
        ensures
            r == (SearchQuery { include_facets: true, ..self }),
    {
        let mut s = self;
        s.include_facets = true;
        s
    }

    /// The number of results before this query's page.
    pub fn offset(&self) -> (r: i64)
        requires
            query_offset_computable(*self),
        ensures
            r == query_offset(*self),
    {
        (self.page - 1) * self.per_page
    }

    /// The SQL WHERE condition of the filters and the values of its placeholders.
    pub fn build_where_clause(&self) -> (r: (String, Vec<String>))
        ensures
            r.0@ == where_clause(self.filters@).0,
            string_views(r.1@) == where_clause(self.filters@).1,
            count_char(r.0@, '?') == r.1@.len(),
    {
        proof { law_where_placeholders_match_values(self.filters@); }
        let mut clauses: Vec<String> = Vec::new();
        let mut all_values: Vec<String> = Vec::new();
        let mut i: usize = 0;
        while i < self.filters.len()
            invariant
                i <= self.filters@.len(),
                string_views(clauses@) == where_parts(self.filters@.take(i as int)).0,
                string_views(all_values@) == where_parts(self.filters@.take(i as int)).1,
            decreases self.filters@.len() - i,
        {
            assert(self.filters@.take(i + 1).drop_last() =~= self.filters@.take(i as int));
            let (clause, values) = self.filters[i].to_sql();
            if !clause.as_str().is_empty() && !str_eq(clause.as_str(), "1=1") {
                let mut wrapped = "(".to_string();
                wrapped.append(clause.as_str());
                wrapped.append(")");
                let ghost before_c = clauses@;
                let ghost before_v = all_values@;
                clauses.push(wrapped);
                assert(string_views(clauses@) =~= string_views(before_c).push(wrapped@));
                let mut k: usize = 0;
                while k < values.len()
                    invariant
                        k <= values@.len(),
                        string_views(all_values@) =~= string_views(before_v) + string_views(
                            values@.take(k as int),
                        ),
                    decreases values@.len() - k,
                {
                    let v = values[k].clone();
                    let ghost prev = all_values@;
                    all_values.push(v);
                    assert(string_views(all_values@) =~= string_views(prev).push(v@));
                    assert(values@.take(k + 1) =~= values@.take(k as int).push(values@[k as int]));
                    k = k + 1;
                }
                assert(values@.take(k as int) =~= values@);
            } else {
                assert(clause@.len() == 0 || clause@ == "1=1"@);
            }
            i = i + 1;
        }
        assert(self.filters@.take(i as int) =~= self.filters@);
        if clauses.len() == 0 {
            let none: Vec<String> = Vec::new();
            assert(string_views(none@) =~= Seq::<Seq<char>>::empty());
            return ("1=1".to_string(), none);
        }
        (join_strings(&clauses, " AND "), all_values)
    }

    /// The full SQL query for products and the values of its placeholders.
    pub fn build_sql(&self) -> (r: (String, Vec<String>))
        requires
            query_offset_computable(*self),
        ensures
            r.0@ == "SELECT * FROM products WHERE "@ + where_clause(self.filters@).0
                + " ORDER BY "@ + sort_sql(self.sort) + " LIMIT "@ + signed_dec_digits(
                self.per_page as int,
            ) + " OFFSET "@ + signed_dec_digits(query_offset(*self)),
            string_views(r.1@) == where_clause(self.filters@).1,
    {
        let (where_sql, values) = self.build_where_clause();
        let mut sql = "SELECT * FROM products WHERE ".to_string();
        sql.append(where_sql.as_str());
        sql.append(" ORDER BY ");
        sql.append(self.sort.to_sql());
        sql.append(" LIMIT ");
        sql.append(signed_dec_string(self.per_page).as_str());
        sql.append(" OFFSET ");
        sql.append(signed_dec_string(self.offset()).as_str());
        (sql, values)
    }

    /// The SQL query counting the matching products and the values of its placeholders.
    pub fn build_count_sql(&self) -> (r: (String, Vec<String>))
        ensures
            r.0@ == "SELECT COUNT(*) as count FROM products WHERE "@ + where_clause(
                self.filters@,
            ).0,
            string_views(r.1@) == where_clause(self.filters@).1,
    {
        let (where_sql, values) = self.build_where_clause();
        let mut sql = "SELECT COUNT(*) as count FROM products WHERE ".to_string();
        sql.append(where_sql.as_str());
        (sql, values)
    }
}

impl Default for SearchQuery {
    /// Every field at its type's default: no text, no filters, relevance, page 0 of size 0.
    fn default() -> (r: Self)
        ensures
            r.query is None,
            r.filters@.len() == 0,
            r.sort == SortOption::Relevance,
            r.page == 0,
            r.per_page == 0,
            !r.include_facets,
    {
        SearchQuery {
            query: None,
            filters: Vec::new(),
            sort: SortOption::Relevance,
            page: 0,
            per_page: 0,
            include_facets: false,
        }
    }
}


/// Whatever page and size are asked for, a query's page is at least 1 and its
/// size between 1 and 100.
pub proof fn law_pagination_clamped(page: i64, per_page: i64)
    ensures
        (if page < 1 { 1 } else { page }) >= 1,
        1 <= clamp_int(per_page as int, 1, 100) <= 100,
        1 <= per_page <= 100 ==> clamp_int(per_page as int, 1, 100) == per_page,
{
}

/// The conditions that the filters contribute hold, in all, one `?` for each
/// value bound to them.
pub proof fn lemma_where_parts_placeholders(fs: Seq<Filter>)
    ensures
        count_char_all(where_parts(fs).0, '?') == where_parts(fs).1.len(),
    decreases fs.len(),
{
    if fs.len() > 0 {
        lemma_where_parts_placeholders(fs.drop_last());
        let (sql, vals) = filter_sql(fs.last());
        if sql.len() > 0 && sql != "1=1"@ {
            lemma_filter_placeholders(fs.last());
            lemma_sql_text_counts();
            reveal_strlit("(");
            reveal_with_fuel(count_char, 2);
            lemma_count_char_add("("@, sql, '?');
            lemma_count_char_add("("@ + sql, ")"@, '?');
            let (clauses, values) = where_parts(fs.drop_last());
            assert(clauses.push("("@ + sql + ")"@).drop_last() =~= clauses);
        }
    }
}

/// A WHERE condition built from filters holds exactly one `?` placeholder for
/// each value bound to it, so the condition and its values always line up.
pub proof fn law_where_placeholders_match_values(fs: Seq<Filter>)
    ensures
        count_char(where_clause(fs).0, '?') == where_clause(fs).1.len(),
{
    lemma_sql_text_counts();
    lemma_where_parts_placeholders(fs);
    let (clauses, values) = where_parts(fs);
    if clauses.len() > 0 {
        lemma_count_char_join(clauses, " AND "@, '?');
    }
}

} // verus!
