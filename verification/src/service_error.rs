use vstd::prelude::*;
use crate::database_error::{DatabaseError, DatabaseErrorView, database_error_text};

verus! {

/// An error of the service layer: the request was wrong, or the database failed.
#[derive(Debug, Clone)]
pub enum ServiceError {
    Input(String),
    Database(DatabaseError),
}

/// The mathematical value of a [`ServiceError`].
pub enum ServiceErrorView {
    Input(Seq<char>),
    Database(DatabaseErrorView),
}

impl View for ServiceError {
    type V = ServiceErrorView;

    open spec fn view(&self) -> ServiceErrorView {
        match self {
            ServiceError::Input(msg) => ServiceErrorView::Input(msg@),
            ServiceError::Database(e) => ServiceErrorView::Database(e@),
        }
    }
}

/// How a service error reads.
pub open spec fn service_error_text(e: ServiceErrorView) -> Seq<char> {
    match e {
        ServiceErrorView::Input(msg) => "Invalid input: "@ + msg,
        ServiceErrorView::Database(d) => "Database error: "@ + database_error_text(d),
    }
}

impl ServiceError {
    /// The database error behind this one, if it came from the database.
    pub fn cause(&self) -> (c: Option<&DatabaseError>)
        ensures
            match self {
                ServiceError::Database(e) => c == Some(e),
                ServiceError::Input(_) => c is None,
            },
    {
        match self {
            ServiceError::Database(e) => Some(e),
            ServiceError::Input(_) => None,
        }
    }

    /// How the error reads.
    pub fn to_string(&self) -> (s: String)
        ensures
            s@ == service_error_text(self@),
    {
        match self {
            ServiceError::Input(msg) => {
                let mut s = String::from_str("Invalid input: ");
                s.append(msg.as_str());
                s
            },
            ServiceError::Database(e) => {
                let mut s = String::from_str("Database error: ");
                let text = e.to_string();
                s.append(text.as_str());
                s
            },
        }
    }
}

impl From<DatabaseError> for ServiceError {
    fn from(error: DatabaseError) -> (r: ServiceError) {
        ServiceError::Database(error)
    }
}

impl vstd::std_specs::convert::FromSpecImpl<DatabaseError> for ServiceError {
    open spec fn obeys_from_spec() -> bool {
        true
    }

    open spec fn from_spec(error: DatabaseError) -> ServiceError {
        ServiceError::Database(error)
    }
}

/// A database result as the service hands it on: its value, or its error as a service error.
pub fn into_service_result<T>(r: Result<T, DatabaseError>) -> (s: Result<T, ServiceError>)
    ensures
        match r {
            Ok(v) => s == Ok::<T, ServiceError>(v),
            Err(e) => s == Err::<T, ServiceError>(ServiceError::Database(e)),
        },
{
    match r {
        Ok(v) => Ok(v),
        Err(e) => Err(ServiceError::Database(e)),
    }
}

} // verus!
