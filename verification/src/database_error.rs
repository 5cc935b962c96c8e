use vstd::prelude::*;

verus! {

/// What went wrong in the database layer.
#[derive(Debug, Clone, Copy, PartialEq, Eq, Structural)]
pub enum Kind {
    Connection,
    Query,
    ItemNotFound,
}

/// An error of the database layer: its kind, a message for the log, and the
/// text of the error that caused it, if any.
#[derive(Debug, Clone)]
pub struct DatabaseError(pub Kind, pub String, pub Option<String>);

/// The name under which the first version of the service knew the database error.
pub type Error = DatabaseError;

/// The mathematical value of a [`DatabaseError`].
pub struct DatabaseErrorView {
    pub kind: Kind,
    pub message: Seq<char>,
    pub cause: Option<Seq<char>>,
}

impl View for DatabaseError {
    type V = DatabaseErrorView;

    open spec fn view(&self) -> DatabaseErrorView {
        DatabaseErrorView {
            kind: self.0,
            message: self.1@,
            cause: match self.2 {
                Some(c) => Some(c@),
                None => None,
            },
        }
    }
}

/// The text that stands for each kind of error.
pub open spec fn kind_text(kind: Kind) -> Seq<char> {
    match kind {
        Kind::Connection => "Connection error"@,
        Kind::Query => "Query execution error"@,
        Kind::ItemNotFound => "Item not found"@,
    }
}

/// How a database error reads: the text of its kind, then `: ` and its cause if it has one.
/// The message is for the log and does not show.
pub open spec fn database_error_text(e: DatabaseErrorView) -> Seq<char> {
    kind_text(e.kind) + match e.cause {
        Some(c) => ": "@ + c,
        None => Seq::<char>::empty(),
    }
}

/// The error with which a lookup that finds no item ends.
pub open spec fn not_found_view() -> DatabaseErrorView {
    DatabaseErrorView { kind: Kind::ItemNotFound, message: ""@, cause: None }
}

impl DatabaseError {
    /// The error for a lookup that found no item.
    pub fn not_found() -> (e: DatabaseError)
        ensures
            e@ == not_found_view(),
    {
        DatabaseError(Kind::ItemNotFound, String::from_str(""), None)
    }

    /// The error for a query that the database refused: `message` says which
    /// query, `cause` is the text of the driver's error.
    pub fn query_failure(message: &str, cause: String) -> (e: DatabaseError)
        ensures
            e@ == (DatabaseErrorView { kind: Kind::Query, message: message@, cause: Some(cause@) }),
    {
        DatabaseError(Kind::Query, String::from_str(message), Some(cause))
    }

    /// The error for a connection that the pool could not hand out.
    pub fn from_pool_error(cause: String) -> (e: DatabaseError)
        ensures
            e@ == (DatabaseErrorView { kind: Kind::Connection, message: "Pool error"@, cause: Some(cause@) }),
    {
        DatabaseError(Kind::Connection, String::from_str("Pool error"), Some(cause))
    }

    /// The error for a pool that could not be created.
    pub fn from_create_pool_error(cause: String) -> (e: DatabaseError)
        ensures
            e@ == (DatabaseErrorView {
                kind: Kind::Connection,
                message: "Error creating pool"@,
                cause: Some(cause@),
            }),
    {
        DatabaseError(Kind::Connection, String::from_str("Error creating pool"), Some(cause))
    }

    /// The error for a pool configuration that was refused.
    pub fn from_config_error(cause: String) -> (e: DatabaseError)
        ensures
            e@ == (DatabaseErrorView {
                kind: Kind::Connection,
                message: "Configuration error"@,
                cause: Some(cause@),
            }),
    {
        DatabaseError(Kind::Connection, String::from_str("Configuration error"), Some(cause))
    }

    /// The error for a failure that the database driver reported.
    pub fn from_postgres_error(cause: String) -> (e: DatabaseError)
        ensures
            e@ == (DatabaseErrorView { kind: Kind::Connection, message: ""@, cause: Some(cause@) }),
    {
        DatabaseError(Kind::Connection, String::from_str(""), Some(cause))
    }

    /// The error for a connection check that failed.
    pub fn connection_check_failure(cause: String) -> (e: DatabaseError)
        ensures
            e@ == (DatabaseErrorView {
                kind: Kind::Connection,
                message: "Error checking connection"@,
                cause: Some(cause@),
            }),
    {
        DatabaseError(Kind::Connection, String::from_str("Error checking connection"), Some(cause))
    }

    /// The text of the error that caused this one.
    pub fn cause(&self) -> (c: Option<&String>)
        ensures
            c is Some <==> self.2 is Some,
            c matches Some(t) ==> Some(t@) == self@.cause,
    {
        match &self.2 {
            Some(t) => Some(t),
            None => None,
        }
    }

    /// How the error reads.
    pub fn to_string(&self) -> (s: String)
        ensures
            s@ == database_error_text(self@),
    {
        let mut s = match self.0 {
            Kind::Connection => String::from_str("Connection error"),
            Kind::Query => String::from_str("Query execution error"),
            Kind::ItemNotFound => String::from_str("Item not found"),
        };
        match &self.2 {
            Some(cause) => {
                s.append(": ");
                s.append(cause.as_str());
                assert(s@ =~= database_error_text(self@));
            },
            None => {
                assert(s@ =~= database_error_text(self@));
            },
        }
        s
    }
}

/// A lookup's row, or the not-found error when the query returned none.
pub fn row_or_not_found<T>(row: Option<T>) -> (r: Result<T, DatabaseError>)
    ensures
        match row {
            Some(v) => r == Ok::<T, DatabaseError>(v),
            None => r matches Err(e) && e@ == not_found_view(),
        },
{
    match row {
        Some(v) => Ok(v),
        None => Err(DatabaseError::not_found()),
    }
}

/// A removal succeeds when it removed a row; none removed means the item was not there.
pub fn removal_outcome(removed_rows: u64) -> (r: Result<(), DatabaseError>)
    ensures
        r is Ok <==> removed_rows != 0,
        r matches Err(e) ==> e@ == not_found_view(),
{
    if removed_rows == 0 {
        Err(DatabaseError::not_found())
    } else {
        Ok(())
    }
}

/// A stock reduction is only taken for a positive quantity.
pub fn check_reduction_quantity(quantity: i32) -> (r: Result<(), DatabaseError>)
    ensures
        r is Ok <==> quantity > 0,
        r matches Err(e) ==> e@ == (DatabaseErrorView {
            kind: Kind::Query,
            message: "Quantity must be a non-zero positive number"@,
            cause: None,
        }),
{
    if quantity <= 0 {
        Err(DatabaseError(Kind::Query, String::from_str("Quantity must be a non-zero positive number"), None))
    } else {
        Ok(())
    }
}

/// Recording a stock movement must touch exactly one row: the movement of that item on that day.
pub fn movement_outcome(modified_rows: u64) -> (r: Result<(), DatabaseError>)
    ensures
        r is Ok <==> modified_rows == 1,
        r matches Err(e) ==> e@ == (DatabaseErrorView {
            kind: Kind::Query,
            message: "Not exactly 1 modified rows in INSERT or UPDATE statement"@,
            cause: None,
        }),
{
    if modified_rows == 1 {
        Ok(())
    } else {
        Err(DatabaseError(
            Kind::Query,
            String::from_str("Not exactly 1 modified rows in INSERT or UPDATE statement"),
            None,
        ))
    }
}

} // verus!
