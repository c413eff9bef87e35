use rusqlite::Error as SqliteError;
use vstd::prelude::*;
use vstd::string::to_string_from_display_ensures;

verus! {

/// The storage engine's error, carried as the underlying cause.
#[verifier::external_type_specification]
#[verifier::external_body]
pub struct ExSqlError(SqliteError);

/// The table and column whose value could not be read, used as error context.
#[derive(Clone, Copy, Debug)]
pub struct TableColumn {
    pub table: &'static str,
    pub column: &'static str,
}

/// Where a failure happened.
#[derive(Clone, Copy, Debug)]
pub enum ErrorKind {
    /// Decoding one column of one row of a table failed.
    Row(TableColumn),
    /// Opening the database failed.
    Open,
    /// Preparing or running an entity's query failed.
    Query,
    /// Any other engine error, passed through with its own message.
    UnknownTransparent,
}

/// The error of every fallible operation of this library: the engine's error
/// together with the place where it happened.
#[derive(Debug)]
pub struct Error {
    pub source: SqliteError,
    pub kind: ErrorKind,
}

impl From<SqliteError> for Error {
    /// An engine error that no phase claimed is passed through unclassified.
    fn from(source: SqliteError) -> (r: Self)
        ensures
            r.kind is UnknownTransparent,
            r.source == source,
    {
        Error { source, kind: ErrorKind::UnknownTransparent }
    }
}

impl vstd::std_specs::convert::FromSpecImpl<SqliteError> for Error {
    open spec fn obeys_from_spec() -> bool {
        true
    }

    open spec fn from_spec(v: SqliteError) -> Self {
        Error { source: v, kind: ErrorKind::UnknownTransparent }
    }
}

/// The message of a failure attributed to a column.
pub open spec fn column_message(tc: TableColumn) -> Seq<char> {
    "failed to get column \""@ + tc.column@ + "\" in table \""@ + tc.table@ + "\""@
}

/// The error is attributed to the given column of the given table.
pub open spec fn is_row_error(e: Error, table: Seq<char>, column: Seq<char>) -> bool {
    &&& e.kind is Row
    &&& e.kind->Row_0.table@ == table
    &&& e.kind->Row_0.column@ == column
}

impl Error {
    pub fn kind(&self) -> (r: &ErrorKind)
        ensures
            *r == self.kind,
    {
        &self.kind
    }

    /// The engine error this one wraps, whatever its kind.
    pub fn into_source(self) -> (r: SqliteError)
        ensures
            r == self.source,
    {
        self.source
    }

    /// The cause that this error reports: the wrapped engine error, except for a
    /// pass-through error, which has no cause of its own beyond the engine's.
    pub fn cause(&self) -> (r: Option<&SqliteError>)
        ensures
            self.kind is UnknownTransparent <==> r is None,
            r is Some ==> *r->0 == self.source,
    {
        match self.kind {
            ErrorKind::UnknownTransparent => None,
            _ => Some(&self.source),
        }
    }

    /// The text describing this error. A pass-through error uses the engine
    /// error's own text.
    pub fn message(&self) -> (r: String)
        ensures
            match self.kind {
                ErrorKind::Row(tc) => r@ == column_message(tc),
                ErrorKind::Open => r@ == "failed to open database"@,
                ErrorKind::Query => r@ == "failed to query database"@,
                ErrorKind::UnknownTransparent => to_string_from_display_ensures::<SqliteError>(
                    &self.source,
                    r,
                ),
            },
    {
        match self.kind {
            ErrorKind::Row(tc) => {
                let mut s = String::from_str("failed to get column \"");
                s.append(tc.column);
                s.append("\" in table \"");
                s.append(tc.table);
                s.append("\"");
                s
            },
            ErrorKind::Open => String::from_str("failed to open database"),
            ErrorKind::Query => String::from_str("failed to query database"),
            ErrorKind::UnknownTransparent => self.source.to_string(),
        }
    }
}

} // verus!
