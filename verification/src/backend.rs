//! The storage backend contract: the abstract database surface a cache
//! backend implements, and the query helpers built on top of it.
//!
//! The raw statement execution is the backend's own affair — it performs
//! I/O, so nothing can be promised of it; what the helpers add on top of
//! whatever rows come back is verified.

use vstd::prelude::*;
use crate::query::QueryPart;

verus! {

/// A result row, as plain text fields.
#[derive(Debug, Clone, PartialEq)]
pub struct Row {
    pub fields: Vec<String>,
}

/// An error of the storage backend.
pub enum Error<DB: Database> {
    /// The database itself failed.
    Database(DB::Error),
    /// Conversion from a row item to the expected value failed.
    Conversion(String, String),
    /// A query expected to yield one row yielded none.
    NoResult,
    /// A query expected to yield one row yielded more than one.
    TooManyRows,
}

/// What a database backend offers.  The raw entry points perform the actual
/// I/O and are implemented by each backend; the provided helpers prepare
/// statements and shape results, and their row handling is exact.
pub trait Database: Sized {
    /// The backend's own error type.
    type Error;

    /// The marker prefix of this backend's numbered statement placeholders.
    fn placeholder_prefix() -> String;

    /// Executes a rendered statement with bound parameters.  This performs
    /// I/O; nothing is promised of its outcome.
    fn execute_raw(&self, statement: String, params: &Vec<String>) -> Result<(), Error<Self>>;

    /// Runs a rendered query statement with bound parameters, yielding
    /// rows.  This performs I/O; nothing is promised of its outcome.
    fn query_raw(&self, statement: String, params: &Vec<String>) -> Result<Vec<Row>, Error<Self>>;

    /// Prepares and executes a query.
    fn execute<Q: QueryPart<Self>>(&self, query: &Q) -> Result<(), Error<Self>> {
        let (statement, params) = query.to_sql();
        let rendered = statement.to_statement(Self::placeholder_prefix().as_str());
        self.execute_raw(rendered, &params)
    }

    /// Executes a query rendered without placeholders.
    fn execute_unprepared<Q: QueryPart<Self>>(&self, query: &Q) -> Result<(), Error<Self>> {
        let params: Vec<String> = Vec::new();
        self.execute_raw(query.to_sql_unprepared(), &params)
    }

    /// Prepares and runs a query, yielding its rows.
    fn query_rows<Q: QueryPart<Self>>(&self, query: &Q) -> Result<Vec<Row>, Error<Self>> {
        let (statement, params) = query.to_sql();
        let rendered = statement.to_statement(Self::placeholder_prefix().as_str());
        self.query_raw(rendered, &params)
    }

    /// Runs a query rendered without placeholders, yielding its rows.
    fn query_unprepared<Q: QueryPart<Self>>(&self, query: &Q) -> Result<Vec<Row>, Error<Self>> {
        let params: Vec<String> = Vec::new();
        self.query_raw(query.to_sql_unprepared(), &params)
    }

    /// Runs a query that must yield exactly one row, and yields it.
    fn query_one_row<Q: QueryPart<Self>>(&self, query: &Q) -> Result<Row, Error<Self>> {
        match self.query_rows(query) {
            Ok(rows) => match single_row(rows) {
                Ok(row) => Ok(row),
                Err(RowCountError::NoResult) => Err(Error::NoResult),
                Err(RowCountError::TooManyRows) => Err(Error::TooManyRows),
            },
            Err(e) => Err(e),
        }
    }

    /// Like [`Database::query_one_row`], over the unprepared rendering.
    fn query_one_unprepared<Q: QueryPart<Self>>(&self, query: &Q) -> Result<Row, Error<Self>> {
        match self.query_unprepared(query) {
            Ok(rows) => match single_row(rows) {
                Ok(row) => Ok(row),
                Err(RowCountError::NoResult) => Err(Error::NoResult),
                Err(RowCountError::TooManyRows) => Err(Error::TooManyRows),
            },
            Err(e) => Err(e),
        }
    }
}

/// Why a single-row result had no single row.
#[derive(Debug, Clone, Copy, PartialEq, Eq, Structural)]
pub enum RowCountError {
    NoResult,
    TooManyRows,
}

/// The row of a single-row result: none is an error, more than one is an
/// error, exactly one is the answer.
pub fn single_row(rows: Vec<Row>) -> (r: Result<Row, RowCountError>)
    ensures
        rows@.len() == 0 ==> r == Err::<Row, RowCountError>(RowCountError::NoResult),
        rows@.len() > 1 ==> r == Err::<Row, RowCountError>(RowCountError::TooManyRows),
        rows@.len() == 1 ==> (r matches Ok(row) && row == rows@[0]),
{
    let mut rows = rows;
    if rows.len() == 0 {
        Err(RowCountError::NoResult)
    } else if rows.len() > 1 {
        Err(RowCountError::TooManyRows)
    } else {
        Ok(rows.remove(0))
    }
}

} // verus!
