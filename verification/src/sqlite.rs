//! The relational backend: one row per record in the table `snippets`, keyed
//! by name.
//!
//! The statements and the reading of rows are decided here; running a
//! statement on the connection is the caller's part. The engine makes each
//! statement atomic and orders concurrent access itself.

use vstd::prelude::*;
use vstd::string::StringExecFns;
use crate::error::{Access, StorageError};
use crate::record::{Record, Snippet};
use crate::store::{erase, lookup, upsert, Entries};

verus! {

/// A row as the engine hands it out: each column's text, or `None` for a
/// column without a value.
pub type Row = Seq<Option<Seq<char>>>;

/// One statement on the table `snippets`.
#[derive(Debug, PartialEq, Eq)]
pub enum Statement {
    /// Creates the table unless it exists.
    CreateTable,
    /// Inserts the row of a snippet, or replaces `code` and `created_at` of
    /// the row with its name.
    Upsert(Snippet),
    /// Asks for the row with a name.
    Select(String),
    /// Deletes the row with a name, if there is one.
    Delete(String),
}

impl Statement {
    /// The SQL text of the statement.
    pub open spec fn spec_sql(&self) -> Seq<char> {
        match self {
            Statement::CreateTable =>
                "CREATE TABLE IF NOT EXISTS snippets (name TEXT PRIMARY KEY, code TEXT NOT NULL, created_at TEXT NOT NULL)"@,
            Statement::Upsert(_) =>
                "INSERT INTO snippets (name, code, created_at) VALUES (?1, ?2, ?3) ON CONFLICT(name) DO UPDATE SET code = excluded.code, created_at = excluded.created_at"@,
            Statement::Select(_) => "SELECT name, code, created_at FROM snippets WHERE name = ?1"@,
            Statement::Delete(_) => "DELETE FROM snippets WHERE name = ?1"@,
        }
    }

    /// The values bound to `?1`, `?2`, ... in this order.
    pub open spec fn spec_params(&self) -> Seq<Seq<char>> {
        match self {
            Statement::CreateTable => seq![],
            Statement::Upsert(snippet) => seq![snippet.name@, snippet.code@, snippet.created_at@],
            Statement::Select(name) => seq![name@],
            Statement::Delete(name) => seq![name@],
        }
    }

    /// The table after the statement, by the meaning of its SQL: the rows as
    /// records under their names.
    pub open spec fn effect(&self, table: Entries) -> Entries {
        match self {
            Statement::CreateTable => table,
            Statement::Upsert(snippet) => upsert(table, snippet.name@, snippet@),
            Statement::Select(_) => table,
            Statement::Delete(name) => erase(table, name@),
        }
    }

    /// The first row that the statement yields on `table`, by the meaning of
    /// its SQL.
    pub open spec fn first_row(&self, table: Entries) -> Option<Row> {
        match self {
            Statement::Select(name) => match lookup(table, name@) {
                Some(record) => Some(row_of(record)),
                None => None,
            },
            _ => None,
        }
    }

    /// The SQL text of the statement.
    pub fn sql(&self) -> (r: String)
        ensures
            r@ == self.spec_sql(),
    {
        match self {
            Statement::CreateTable => String::from_str(
                "CREATE TABLE IF NOT EXISTS snippets (name TEXT PRIMARY KEY, code TEXT NOT NULL, created_at TEXT NOT NULL)",
            ),
            Statement::Upsert(_) => String::from_str(
                "INSERT INTO snippets (name, code, created_at) VALUES (?1, ?2, ?3) ON CONFLICT(name) DO UPDATE SET code = excluded.code, created_at = excluded.created_at",
            ),
            Statement::Select(_) => String::from_str(
                "SELECT name, code, created_at FROM snippets WHERE name = ?1",
            ),
            Statement::Delete(_) => String::from_str("DELETE FROM snippets WHERE name = ?1"),
        }
    }

    /// The values to bind to `?1`, `?2`, ... in this order.
    pub fn params(&self) -> (r: Vec<String>)
        ensures
            r.deep_view() == self.spec_params(),
    {
        let mut out: Vec<String> = Vec::new();
        match self {
            Statement::CreateTable => {},
            Statement::Upsert(snippet) => {
                out.push(snippet.name.clone());
                out.push(snippet.code.clone());
                out.push(snippet.created_at.clone());
            },
            Statement::Select(name) => {
                out.push(name.clone());
            },
            Statement::Delete(name) => {
                out.push(name.clone());
            },
        }
        proof {
            assert(out.deep_view() =~= self.spec_params());
        }
        out
    }
}

/// The row of a record: its name, its code and its creation time.
pub open spec fn row_of(record: Record) -> Row {
    seq![Some(record.name), Some(record.code), Some(record.created_at)]
}

/// The record that a row stands for: a row of three texts; `None` for any
/// other row.
pub open spec fn record_of_row(row: Row) -> Option<Record> {
    if row.len() == 3 && row[0] is Some && row[1] is Some && row[2] is Some {
        Some(Record { name: row[0].unwrap(), code: row[1].unwrap(), created_at: row[2].unwrap() })
    } else {
        None
    }
}

/// A record store in one table of a database file.
#[derive(Debug)]
pub struct SqliteStorage {
    path: String,
}

impl SqliteStorage {
    /// The location of the database.
    pub closed spec fn location(&self) -> Seq<char> {
        self.path@
    }

    /// A store in the database at `path`. Before its first use the table is
    /// set up with the statement of `schema`.
    pub fn new(path: String) -> (r: SqliteStorage)
        ensures
            r.location() == path@,
    {
        SqliteStorage { path }
    }

    /// The location of the database.
    pub fn path(&self) -> (r: &str)
        ensures
            r@ == self.location(),
    {
        self.path.as_str()
    }

    /// The failure to report when the database could not be opened or the
    /// table could not be set up.
    pub fn init_error(&self) -> (r: StorageError)
        ensures
            r is Initialization,
            r->Initialization_0@ == self.location(),
    {
        StorageError::Initialization(self.path.clone())
    }

    /// The failure to report when the engine refused a statement: a read
    /// for a query, a write for any other statement.
    pub fn io_error(&self, statement: &Statement) -> (r: StorageError)
        ensures
            r is Io,
            r->Io_0 == (if statement is Select {
                Access::Read
            } else {
                Access::Write
            }),
            r->Io_1@ == self.location(),
    {
        let access = match statement {
            Statement::Select(_) => Access::Read,
            _ => Access::Write,
        };
        StorageError::Io(access, self.path.clone())
    }

    /// The statement that sets the table up; running it again changes nothing.
    pub fn schema(&self) -> (r: Statement)
        ensures
            r == Statement::CreateTable,
    {
        Statement::CreateTable
    }

    /// The one statement that saves `snippet`.
    pub fn save(&self, snippet: &Snippet) -> (r: Statement)
        ensures
            r == Statement::Upsert(*snippet),
    {
        Statement::Upsert(snippet.clone())
    }

    /// The query for the snippet under `name`; `found` reads its answer.
    pub fn get(&self, name: &str) -> (r: Statement)
        ensures
            r is Select,
            r->Select_0@ == name@,
    {
        Statement::Select(name.to_owned())
    }

    /// The statement that deletes the snippet under `name`.
    pub fn delete(&self, name: &str) -> (r: Statement)
        ensures
            r is Delete,
            r->Delete_0@ == name@,
    {
        Statement::Delete(name.to_owned())
    }

    /// Reads the answer to a query: no row is absence, a row of three texts
    /// is the snippet, any other row is a deserialization error.
    pub fn found(&self, row: Option<Vec<Option<String>>>) -> (r: Result<
        Option<Snippet>,
        StorageError,
    >)
        ensures
            match row {
                None => r == Ok::<Option<Snippet>, StorageError>(None),
                Some(columns) => match record_of_row(columns.deep_view()) {
                    Some(record) => r is Ok && r.unwrap() is Some && r.unwrap().unwrap()@
                        == record,
                    None => r == Err::<Option<Snippet>, StorageError>(
                        StorageError::Deserialization,
                    ),
                },
            },
    {
        match row {
            None => Ok(None),
            Some(columns) => {
                if columns.len() != 3 {
                    return Err(StorageError::Deserialization);
                }
                proof {
                    let row = columns.deep_view();
                    assert(row[0] == columns@[0].deep_view());
                    assert(row[1] == columns@[1].deep_view());
                    assert(row[2] == columns@[2].deep_view());
                }
                match (columns[0].clone(), columns[1].clone(), columns[2].clone()) {
                    (Some(name), Some(code), Some(created_at)) => Ok(
                        Some(Snippet { name, code, created_at }),
                    ),
                    _ => Err(StorageError::Deserialization),
                }
            },
        }
    }
}

} // verus!
