use turbocommerce::ids::CategoryId;
use turbocommerce::money::{Currency, Money};
use turbocommerce::search::{Facet, FacetType, Filter, Pagination, SearchQuery, SearchResults, SortOption};

#[test]
fn test_pagination_basics() {
    let p = Pagination::new(2, 10, 45);
    assert_eq!(p.total_pages, 5);
    assert!(p.has_next);
    assert!(p.has_prev);
    assert_eq!(p.offset(), 10);
}

#[test]
fn test_pagination_first_page() {
    let p = Pagination::new(1, 10, 45);
    assert!(!p.has_prev);
    assert!(p.has_next);
    assert!(p.is_first());
    assert!(!p.is_last());
}

#[test]
fn test_pagination_last_page() {
    let p = Pagination::new(5, 10, 45);
    assert!(p.has_prev);
    assert!(!p.has_next);
    assert!(!p.is_first());
    assert!(p.is_last());
}

#[test]
fn test_pagination_single_page() {
    let p = Pagination::new(1, 10, 5);
    assert_eq!(p.total_pages, 1);
    assert!(!p.has_next);
    assert!(!p.has_prev);
}

#[test]
fn test_pagination_page_numbers() {
    let p = Pagination::new(5, 10, 100);
    let pages = p.page_numbers(5);
    assert_eq!(pages, vec![3, 4, 5, 6, 7]);
}

#[test]
fn test_pagination_item_range() {
    let p = Pagination::new(2, 10, 45);
    assert_eq!(p.start_item(), 11);
    assert_eq!(p.end_item(), 20);
}

#[test]
fn test_search_results() {
    let items = vec![1, 2, 3];
    let pagination = Pagination::new(1, 10, 3);
    let results = SearchResults::new(items, pagination);

    assert_eq!(results.len(), 3);
    assert!(!results.is_empty());
}

#[test]
fn pagination_edges() {
    let empty = Pagination::new(1, 24, 0);
    assert_eq!(empty.total_pages, 1);
    assert_eq!(empty.start_item(), 0);
    assert_eq!(empty.end_item(), 0);
    assert_eq!(Pagination::default(), empty);
    let p = Pagination::new(5, 10, 45);
    assert_eq!(p.end_item(), 45);
    assert_eq!(p.page_numbers(10), vec![1, 2, 3, 4, 5]);
    let near_end = Pagination::new(10, 10, 100);
    assert_eq!(near_end.page_numbers(5), vec![6, 7, 8, 9, 10]);
    let near_start = Pagination::new(1, 10, 100);
    assert_eq!(near_start.page_numbers(4), vec![1, 2, 3, 4]);
}

#[test]
fn search_results_builders() {
    let r: SearchResults<i32> = SearchResults::empty();
    assert!(r.is_empty());
    let mut facet = Facet::terms("Category", "category_id");
    facet.add_value("shoes", 3, true);
    let r = r.with_query_time(12).with_facets(vec![facet]);
    assert_eq!(r.query_time_ms, 12);
    assert_eq!(r.facets.len(), 1);
    assert_eq!(r.facets[0].facet_type, FacetType::Terms);
    assert_eq!(r.facets[0].values[0].value, "shoes");
    assert_eq!(r.facets[0].values[0].count, 3);
}

#[test]
fn test_price_range_sql() {
    let filter = Filter::price_range(Some(Money::new(1000, Currency::USD)), Some(Money::new(5000, Currency::USD)));
    let (sql, values) = filter.to_sql();
    assert!(sql.contains("price_cents >="));
    assert!(sql.contains("price_cents <="));
    assert_eq!(values.len(), 2);
}

#[test]
fn test_text_filter_sql() {
    let filter = Filter::text("rust");
    let (sql, values) = filter.to_sql();
    assert!(sql.contains("LIKE"));
    assert_eq!(values.len(), 2);
    assert!(values[0].contains("rust"));
}

#[test]
fn filter_sql_exact() {
    let (sql, values) = Filter::price_range(Some(Money::new(-5, Currency::USD)), None).to_sql();
    assert_eq!(sql, "price_cents >= ?");
    assert_eq!(values, vec!["-5".to_string()]);
    let (sql, values) = Filter::price_range(None, None).to_sql();
    assert_eq!(sql, "");
    assert!(values.is_empty());
    let (sql, values) =
        Filter::Categories(vec![CategoryId::new("a"), CategoryId::new("b"), CategoryId::new("c")]).to_sql();
    assert_eq!(sql, "category_id IN (?, ?, ?)");
    assert_eq!(values, vec!["a".to_string(), "b".to_string(), "c".to_string()]);
    let (sql, values) = Filter::Tags(vec!["x".to_string()]).to_sql();
    assert_eq!(sql, "id IN (SELECT product_id FROM product_tags WHERE tag IN (?))");
    assert_eq!(values, vec!["x".to_string()]);
    let (sql, values) = Filter::SkuPrefix("AB".to_string()).to_sql();
    assert_eq!(sql, "sku LIKE ?");
    assert_eq!(values, vec!["AB%".to_string()]);
    let (sql, values) = Filter::text("rust").to_sql();
    assert_eq!(sql, "(name LIKE ? OR description LIKE ?)");
    assert_eq!(values, vec!["%rust%".to_string(), "%rust%".to_string()]);
    let (sql, values) = Filter::category(CategoryId::new("c1")).to_sql();
    assert_eq!(sql, "category_id = ?");
    assert_eq!(values, vec!["c1".to_string()]);
    let (sql, values) = Filter::Rating { min_bits: 4.5f64.to_bits() }.to_sql();
    assert_eq!(sql, "1=1");
    assert!(values.is_empty());
    let (sql, _) = Filter::tag("new").to_sql();
    assert_eq!(sql, "id IN (SELECT product_id FROM product_tags WHERE tag = ?)");
    let (sql, values) = Filter::attribute("Color", vec!["Blue".to_string()]).to_sql();
    assert_eq!(sql, "1=1");
    assert!(values.is_empty());
}

#[test]
fn test_query_builder() {
    let query = SearchQuery::new()
        .with_query("rust")
        .with_filter(Filter::in_stock())
        .with_sort(SortOption::PriceAsc)
        .with_pagination(2, 10);

    assert_eq!(query.page, 2);
    assert_eq!(query.per_page, 10);
    assert_eq!(query.offset(), 10);
    assert_eq!(query.sort, SortOption::PriceAsc);
}

#[test]
fn test_where_clause() {
    let query = SearchQuery::new()
        .with_filter(Filter::in_stock())
        .with_filter(Filter::price_range(Some(Money::new(1000, Currency::USD)), None));

    let (clause, _values) = query.build_where_clause();
    assert!(clause.contains("quantity > 0"));
    assert!(clause.contains("price_cents >="));
}

#[test]
fn test_full_sql() {
    let query = SearchQuery::new()
        .with_filter(Filter::Status("active".to_string()))
        .with_sort(SortOption::Newest)
        .with_pagination(1, 24);

    let (sql, values) = query.build_sql();
    assert!(sql.contains("SELECT * FROM products"));
    assert!(sql.contains("status = ?"));
    assert!(sql.contains("ORDER BY created_at DESC"));
    assert!(sql.contains("LIMIT 24 OFFSET 0"));
    assert_eq!(values.len(), 1);
}

#[test]
fn query_sql_exact() {
    let query = SearchQuery::new()
        .with_query("")
        .with_filter(Filter::in_stock())
        .with_filter(Filter::price_range(None, None))
        .with_filter(Filter::Rating { min_bits: 0 })
        .with_filter(Filter::ProductType("digital".to_string()))
        .with_pagination(0, 500);
    assert!(query.query.is_none());
    assert_eq!(query.page, 1);
    assert_eq!(query.per_page, 100);
    let (clause, values) = query.build_where_clause();
    assert_eq!(clause, "(quantity > 0) AND (product_type = ?)");
    assert_eq!(values, vec!["digital".to_string()]);
    let (count, _) = query.build_count_sql();
    assert_eq!(count, "SELECT COUNT(*) as count FROM products WHERE (quantity > 0) AND (product_type = ?)");
    let (sql, _) = SearchQuery::new().build_sql();
    assert_eq!(sql, "SELECT * FROM products WHERE 1=1 ORDER BY created_at DESC LIMIT 24 OFFSET 0");
    let q = SearchQuery::new().with_query("boots");
    assert_eq!(q.query.as_deref(), Some("boots"));
    assert_eq!(q.filters.len(), 1);
    assert!(SearchQuery::new().with_facets().include_facets);
    let d = SearchQuery::default();
    assert_eq!((d.page, d.per_page), (0, 0));
}

#[test]
fn sort_option_texts() {
    assert_eq!(SortOption::Relevance.to_sql(), "created_at DESC");
    assert_eq!(SortOption::Rating.to_sql(), "average_rating DESC");
    assert_eq!(SortOption::Position.display_name(), "Featured");
    assert_eq!(SortOption::default(), SortOption::Relevance);
}

#[test]
fn where_clause_placeholders_match_values() {
    let q = SearchQuery::new()
        .with_filter(Filter::Categories(vec![CategoryId::new("a"), CategoryId::new("b")]))
        .with_filter(Filter::InStock)
        .with_filter(Filter::Text("shoe".to_string()))
        .with_filter(Filter::PriceRange { min: Some(Money::new(100, Currency::USD)), max: None })
        .with_filter(Filter::Tags(vec!["x".to_string(), "y".to_string(), "z".to_string()]));
    let (clause, values) = q.build_where_clause();
    assert_eq!(clause.matches('?').count(), values.len());
    assert_eq!(values.len(), 8);
}
