use vstd::prelude::*;
use crate::database_error::{DatabaseError, DatabaseErrorView, Kind, database_error_text};
use crate::service_error::{ServiceError, ServiceErrorView, service_error_text};

verus! {

/// The status with which a request is refused.
#[derive(Debug, Clone, Copy, PartialEq, Eq, Structural)]
pub enum ReplyStatus {
    /// 400: the request was wrong.
    BadRequest,
    /// 404: the item does not exist.
    NotFound,
    /// 500: the service failed.
    InternalServerError,
}

/// The answer to a refused request: its status and the message that it carries.
#[derive(Debug, Clone)]
pub struct ErrorReply {
    pub status: ReplyStatus,
    pub message: String,
}

/// The mathematical value of an [`ErrorReply`].
pub struct ErrorReplyView {
    pub status: ReplyStatus,
    pub message: Seq<char>,
}

impl View for ErrorReply {
    type V = ErrorReplyView;

    open spec fn view(&self) -> ErrorReplyView {
        ErrorReplyView { status: self.status, message: self.message@ }
    }
}

/// The answer when the service itself failed.
pub open spec fn failure_reply(text: Seq<char>) -> ErrorReplyView {
    ErrorReplyView { status: ReplyStatus::InternalServerError, message: "Error: "@ + text }
}

/// How a database error is answered where an item is looked up: a missing item is
/// not found, anything else is a failure.
pub open spec fn database_reply(e: DatabaseErrorView) -> ErrorReplyView {
    if e.kind == Kind::ItemNotFound {
        ErrorReplyView { status: ReplyStatus::NotFound, message: "Item not found"@ }
    } else {
        failure_reply(database_error_text(e))
    }
}

/// How the item endpoints answer a service error.
pub open spec fn item_reply(e: ServiceErrorView) -> ErrorReplyView {
    match e {
        ServiceErrorView::Database(d) => database_reply(d),
        ServiceErrorView::Input(_) => failure_reply(service_error_text(e)),
    }
}

/// How the forecast endpoints answer a service error: bad input is the client's fault.
pub open spec fn forecast_reply(e: ServiceErrorView) -> ErrorReplyView {
    match e {
        ServiceErrorView::Input(msg) => ErrorReplyView {
            status: ReplyStatus::BadRequest,
            message: "Error: "@ + msg,
        },
        ServiceErrorView::Database(d) => database_reply(d),
    }
}

/// How the stock endpoints answer a service error: bad input is the client's fault,
/// anything else is a failure.
pub open spec fn stock_reply(e: ServiceErrorView) -> ErrorReplyView {
    match e {
        ServiceErrorView::Input(msg) => ErrorReplyView {
            status: ReplyStatus::BadRequest,
            message: "Error: "@ + msg,
        },
        ServiceErrorView::Database(_) => failure_reply(service_error_text(e)),
    }
}

fn failure(text: String) -> (r: ErrorReply)
    ensures
        r@ == failure_reply(text@),
{
    let mut message = String::from_str("Error: ");
    message.append(text.as_str());
    ErrorReply { status: ReplyStatus::InternalServerError, message }
}

fn bad_request(text: &String) -> (r: ErrorReply)
    ensures
        r@ == (ErrorReplyView { status: ReplyStatus::BadRequest, message: "Error: "@ + text@ }),
{
    let mut message = String::from_str("Error: ");
    message.append(text.as_str());
    ErrorReply { status: ReplyStatus::BadRequest, message }
}

/// The answer to a database error where an item is looked up.
pub fn database_error_reply(e: &DatabaseError) -> (r: ErrorReply)
    ensures
        r@ == database_reply(e@),
        e.0 == Kind::ItemNotFound <==> r.status == ReplyStatus::NotFound,
        e.0 != Kind::ItemNotFound ==> r.status == ReplyStatus::InternalServerError,
        e.0 == Kind::ItemNotFound ==> r.message@ == "Item not found"@,
        e.0 != Kind::ItemNotFound ==> r.message@ == "Error: "@ + database_error_text(e@),
{
    match e.0 {
        Kind::ItemNotFound => ErrorReply {
            status: ReplyStatus::NotFound,
            message: String::from_str("Item not found"),
        },
        _ => failure(e.to_string()),
    }
}

/// The answer to a database error where items are listed: always a failure.
pub fn database_failure_reply(e: &DatabaseError) -> (r: ErrorReply)
    ensures
        r@ == failure_reply(database_error_text(e@)),
{
    failure(e.to_string())
}

/// The answer of the item endpoints to a service error.
pub fn item_error_reply(e: &ServiceError) -> (r: ErrorReply)
    ensures
        r@ == item_reply(e@),
        (e matches ServiceError::Database(d) && d.0 == Kind::ItemNotFound) <==> r.status
            == ReplyStatus::NotFound,
        r.status != ReplyStatus::BadRequest,
{
    match e {
        ServiceError::Database(d) => database_error_reply(d),
        ServiceError::Input(_) => failure(e.to_string()),
    }
}

/// The answer to a service error where items are listed: always a failure.
pub fn service_failure_reply(e: &ServiceError) -> (r: ErrorReply)
    ensures
        r@ == failure_reply(service_error_text(e@)),
{
    failure(e.to_string())
}

/// The answer of the forecast endpoints to a service error.
pub fn forecast_error_reply(e: &ServiceError) -> (r: ErrorReply)
    ensures
        r@ == forecast_reply(e@),
        e is Input <==> r.status == ReplyStatus::BadRequest,
        (e matches ServiceError::Database(d) && d.0 == Kind::ItemNotFound) <==> r.status
            == ReplyStatus::NotFound,
        (e matches ServiceError::Database(d) && d.0 != Kind::ItemNotFound) <==> r.status
            == ReplyStatus::InternalServerError,
{
    match e {
        ServiceError::Input(msg) => bad_request(msg),
        ServiceError::Database(d) => database_error_reply(d),
    }
}

/// The answer of the stock endpoints to a service error.
pub fn stock_error_reply(e: &ServiceError) -> (r: ErrorReply)
    ensures
        r@ == stock_reply(e@),
        e is Input <==> r.status == ReplyStatus::BadRequest,
        e is Database ==> r.status == ReplyStatus::InternalServerError,
        e matches ServiceError::Database(_) ==> r.message@ == "Error: "@ + service_error_text(e@),
{
    match e {
        ServiceError::Input(msg) => bad_request(msg),
        ServiceError::Database(_) => failure(e.to_string()),
    }
}

/// An item is updated through the path of its own id: a body that names another id is refused.
pub fn check_update_path(path_id: i32, body_id: i32) -> (r: Result<(), ErrorReply>)
    ensures
        r is Ok <==> path_id == body_id,
        r matches Err(e) ==> e@ == (ErrorReplyView {
            status: ReplyStatus::BadRequest,
            message: "Item id in path and body do not match"@,
        }),
{
    if path_id != body_id {
        Err(
            ErrorReply {
                status: ReplyStatus::BadRequest,
                message: String::from_str("Item id in path and body do not match"),
            },
        )
    } else {
        Ok(())
    }
}

/// A missing item is answered alike by every endpoint that looks one up, and any other
/// database failure too: the item and forecast endpoints answer a database error as the
/// lookup of an item does.
pub proof fn lemma_database_errors_answered_alike(d: DatabaseErrorView)
    ensures
        item_reply(ServiceErrorView::Database(d)) == database_reply(d),
        forecast_reply(ServiceErrorView::Database(d)) == database_reply(d),
        d.kind == Kind::ItemNotFound <==> database_reply(d).status == ReplyStatus::NotFound,
{
}

/// Bad input is the client's fault for the forecast and stock endpoints, which answer it alike.
pub proof fn lemma_input_errors_are_bad_requests(msg: Seq<char>)
    ensures
        forecast_reply(ServiceErrorView::Input(msg)) == stock_reply(ServiceErrorView::Input(msg)),
        forecast_reply(ServiceErrorView::Input(msg)).status == ReplyStatus::BadRequest,
{
}

/// Only bad input is the client's fault at the stock endpoints: every database error, of
/// any kind, is answered as a failure of the service with the error's text.
pub proof fn lemma_stock_replies_blame_only_input(e: ServiceErrorView)
    ensures
        e is Input <==> stock_reply(e).status == ReplyStatus::BadRequest,
        e is Database ==> stock_reply(e).status == ReplyStatus::InternalServerError,
        e is Database ==> stock_reply(e).message == "Error: "@ + service_error_text(e),
{
}

/// The forecast endpoints blame the client for bad input, answer a missing item as not
/// found, and every other database error as a failure.
pub proof fn lemma_forecast_reply_statuses(e: ServiceErrorView)
    ensures
        e is Input <==> forecast_reply(e).status == ReplyStatus::BadRequest,
        (e matches ServiceErrorView::Database(d) && d.kind == Kind::ItemNotFound) <==> forecast_reply(
            e,
        ).status == ReplyStatus::NotFound,
        (e matches ServiceErrorView::Database(d) && d.kind != Kind::ItemNotFound) <==> forecast_reply(
            e,
        ).status == ReplyStatus::InternalServerError,
{
}

} // verus!
