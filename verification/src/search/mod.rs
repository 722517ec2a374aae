//! Search: filters, queries, results and pagination.
pub mod filter;
pub mod query;
pub mod results;

pub use self::filter::Filter;
pub use self::query::{SearchQuery, SortOption};
pub use self::results::{Facet, FacetType, FacetValue, Pagination, SearchResults};
