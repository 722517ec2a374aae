//! The database layer: values, rows, query results and errors.
pub mod base64;
pub mod error;
pub mod value;

pub use self::error::DbError;
pub use self::value::DbValue;
pub mod row;
pub use self::row::{QueryResult, Row};
pub mod connection;
pub use self::connection::Db;
