//! The database connection.
use vstd::prelude::*;
use crate::db::error::DbError;
use crate::db::row::QueryResult;
use crate::db::value::DbValue;

verus! {

/// A SQLite database connection. This build has no SQLite host: opening always
/// succeeds, statements change nothing and queries return no rows.
#[derive(Debug)]
pub struct Db {
    detached: (),
}

impl Db {
    /// Open the default database.
    pub fn open_default() -> (r: Result<Self, DbError>)
        ensures
            r is Ok,
    {
        Ok(Db { detached: () })
    }

    /// Open a named database.
    pub fn open(name: &str) -> (r: Result<Self, DbError>)
        ensures
            r is Ok,
    {
        Ok(Db { detached: () })
    }

    /// Execute a statement that returns no rows.
    pub fn execute(&self, sql: &str, params: &[DbValue]) -> (r: Result<(), DbError>)
        ensures
            r is Ok,
    {
        Ok(())
    }

    /// Run a query.
    pub fn query(&self, sql: &str, params: &[DbValue]) -> (r: Result<QueryResult, DbError>)
        ensures
            r matches Ok(q) && q.columns@.len() == 0 && q.rows@.len() == 0,
    {
        Ok(QueryResult::new(Vec::new(), Vec::new()))
    }
}

} // verus!
