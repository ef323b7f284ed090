//! Data shapes shared with the database layer: the engine kind and a query result.
use vstd::prelude::*;

verus! {

/// The database engines the tool talks to.
#[derive(Debug, Clone, Copy, PartialEq, Eq)]
pub enum DatabaseType {
    SQLite,
    MySQL,
    PostgreSQL,
}

impl Default for DatabaseType {
    fn default() -> (r: Self)
        ensures
            r == DatabaseType::SQLite,
    {
        DatabaseType::SQLite
    }
}

/// The settings of a saved connection that the connection dialog checks.
#[derive(Debug, Clone)]
pub struct ConnectionConfig {
    pub name: String,
    pub db_type: DatabaseType,
    pub host: String,
    pub port: u16,
    pub username: String,
    /// The database name, or the file path for SQLite.
    pub database: String,
}

/// The result of a query: column names and rows of cell texts (`NULL` stands for SQL NULL).
#[derive(Debug, Clone)]
pub struct QueryResult {
    pub columns: Vec<String>,
    pub rows: Vec<Vec<String>>,
    pub affected_rows: u64,
}

impl QueryResult {
    /// The column names as character sequences.
    pub open spec fn column_views(&self) -> Seq<Seq<char>> {
        crate::text::views(self.columns@)
    }

    /// The rows as sequences of character sequences.
    pub open spec fn row_views(&self) -> Seq<Seq<Seq<char>>> {
        self.rows@.map_values(|r: Vec<String>| crate::text::views(r@))
    }
}

} // verus!
