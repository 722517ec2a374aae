//! Query result rows.
use vstd::prelude::*;
use crate::db::value::{same_value, DbValue};
use crate::seq_util::{first_index, is_first, lemma_first_index_is, lemma_first_index_none};
use crate::text::{clone_strings, string_views};
use vstd::std_specs::iter::IteratorSpec;

verus! {

/// Whether a column is named `name`.
pub open spec fn column_named(name: Seq<char>) -> spec_fn(Seq<char>) -> bool {
    |c: Seq<char>| c == name
}

/// The index of the first column with this name.
pub open spec fn column_index(columns: Seq<Seq<char>>, name: Seq<char>) -> Option<int> {
    first_index(columns, column_named(name))
}

/// A row from a query result: column names and the values in them.
#[derive(Debug, Clone)]
pub struct Row {
    columns: Vec<String>,
    values: Vec<DbValue>,
}

impl Row {
    /// The column names.
    pub closed spec fn spec_columns(&self) -> Seq<Seq<char>> {
        string_views(self.columns@)
    }

    /// The values, in column order.
    pub closed spec fn spec_values(&self) -> Seq<DbValue> {
        self.values@
    }

    /// A row with these columns and values.
    pub fn new(columns: Vec<String>, values: Vec<DbValue>) -> (r: Self)
        ensures
            r.spec_columns() == string_views(columns@),
            r.spec_values() == values@,
    {
        Row { columns, values }
    }

    /// The value in the first column with this name.
    pub fn get(&self, column: &str) -> (r: Option<&DbValue>)
        requires
            column_index(self.spec_columns(), column@) matches Some(i) ==> i < self.spec_values().len(),
        ensures
            match column_index(self.spec_columns(), column@) {
                Some(i) => r == Some(&self.spec_values()[i]),
                None => r is None,
            },
    {
        let ghost cv = string_views(self.columns@);
        let mut i: usize = 0;
        while i < self.columns.len()
            invariant
                i <= self.columns@.len(),
                cv == string_views(self.columns@),
                column_index(cv, column@) matches Some(k) ==> k < self.values@.len(),
                forall|j: int| 0 <= j < i ==> !column_named(column@)(#[trigger] cv[j]),
            decreases self.columns@.len() - i,
        {
            if crate::text::str_eq(self.columns[i].as_str(), column) {
                proof {
                    assert(is_first(cv, column_named(column@), i as int));
                    lemma_first_index_is(cv, column_named(column@), i as int);
                }
                return Some(&self.values[i]);
            }
            i = i + 1;
        }
        proof {
            lemma_first_index_none(cv, column_named(column@));
        }
        None
    }

    /// The value at a column index.
    pub fn get_index(&self, index: usize) -> (r: Option<&DbValue>)
        ensures
            index < self.spec_values().len() ==> r == Some(&self.spec_values()[index as int]),
            index >= self.spec_values().len() ==> r is None,
    {
        if index < self.values.len() {
            Some(&self.values[index])
        } else {
            None
        }
    }

    /// The column names.
    pub fn columns(&self) -> (r: &[String])
        ensures
            string_views(r@) == self.spec_columns(),
    {
        self.columns.as_slice()
    }

    /// The values, in column order.
    pub fn values(&self) -> (r: &[DbValue])
        ensures
            r@ == self.spec_values(),
    {
        self.values.as_slice()
    }

    /// The column names paired with their values, as far as both go.
    pub fn entries(&self) -> (r: Vec<(String, DbValue)>)
        ensures
            r@.len() == if self.spec_columns().len() <= self.spec_values().len() {
                self.spec_columns().len()
            } else {
                self.spec_values().len()
            },
            forall|i: int|
                0 <= i < r@.len() ==> (#[trigger] r@[i]).0@ == self.spec_columns()[i]
                    && same_value(r@[i].1, self.spec_values()[i]),
    {
        let n: usize = if self.columns.len() <= self.values.len() {
            self.columns.len()
        } else {
            self.values.len()
        };
        let mut out: Vec<(String, DbValue)> = Vec::new();
        let mut i: usize = 0;
        while i < n
            invariant
                i <= n,
                n <= self.columns@.len(),
                n <= self.values@.len(),
                out@.len() == i,
                forall|j: int|
                    0 <= j < i ==> (#[trigger] out@[j]).0@ == self.spec_columns()[j] && same_value(
                        out@[j].1,
                        self.spec_values()[j],
                    ),
            decreases n - i,
        {
            let k = self.columns[i].clone();
            let v = self.values[i].clone();
            out.push((k, v));
            i = i + 1;
        }
        out
    }
}

/// Query result containing rows.
#[derive(Debug, Clone)]
pub struct QueryResult {
    /// The column names.
    pub columns: Vec<String>,
    /// The rows.
    pub rows: Vec<Row>,
}

impl QueryResult {
    /// A result with these columns and rows.
    pub fn new(columns: Vec<String>, rows: Vec<Row>) -> (r: Self)
        ensures
            r.columns == columns,
            r.rows == rows,
    {
        QueryResult { columns, rows }
    }

    /// The result of a query from the table the database returned: its column
    /// names and, for each row, the values in column order. Each row carries
    /// the table's column names.
    pub fn from_table(columns: Vec<String>, table: Vec<Vec<DbValue>>) -> (r: Self)
        ensures
            string_views(r.columns@) == string_views(columns@),
            r.rows@.len() == table@.len(),
            forall|i: int|
                0 <= i < table@.len() ==> (#[trigger] r.rows@[i]).spec_columns() == string_views(columns@)
                    && r.rows@[i].spec_values() == table@[i]@,
    {
        let ghost t = table@;
        let mut rows: Vec<Row> = Vec::new();
        for values in it: table.into_iter()
            invariant
                it.seq() == t,
                rows@.len() == it.index(),
                forall|i: int|
                    0 <= i < rows@.len() ==> (#[trigger] rows@[i]).spec_columns() == string_views(columns@)
                        && rows@[i].spec_values() == t[i]@,
        {
            rows.push(Row::new(clone_strings(&columns), values));
        }
        QueryResult::new(columns, rows)
    }

    /// The number of rows.
    pub fn len(&self) -> (r: usize)
        ensures
            r == self.rows@.len(),
    {
        self.rows.len()
    }

    /// Whether there are no rows.
    pub fn is_empty(&self) -> (r: bool)
        ensures
            r == (self.rows@.len() == 0),
    {
        self.rows.len() == 0
    }

    /// The first row, if any.
    pub fn first(&self) -> (r: Option<&Row>)
        ensures
            self.rows@.len() == 0 ==> r is None,
            self.rows@.len() > 0 ==> r == Some(&self.rows@[0]),
    {
        if self.rows.len() == 0 {
            None
        } else {
            Some(&self.rows[0])
        }
    }

    /// The rows, in order.
    pub fn iter(&self) -> (r: std::slice::Iter<'_, Row>)
        ensures
            r.remaining() == self.rows@.as_ref(),
    {
        let rows = self.rows.as_slice();
        proof {
            vstd::std_specs::slice::axiom_spec_slice_iter(rows);
        }
        rows.iter()
    }
}

} // verus!
