use vstd::prelude::*;
use crate::calendar::{calendar_day_number, day_number, day_number_in_range, is_valid_date};
use crate::database_error::DatabaseError;
use crate::replies::{ErrorReply, ErrorReplyView, ReplyStatus};
use crate::service_error::{ServiceError, ServiceErrorView};
use crate::text::{append_decimal, decimal_text};

verus! {

/// A calendar date as a request writes it.
#[derive(Debug, Clone, Copy)]
pub struct Date {
    pub day: u32,
    pub month: u32,
    pub year: i32,
}

/// A change of an item's stock: the quantity, and the day on which it happened
/// (today where the request names none).
#[derive(Debug, Clone, Copy)]
pub struct UpdateStockRequest {
    pub quantity: i32,
    pub date: Option<Date>,
}

/// The stock left after a loss of `quantity`; none where it would go below zero.
/// A negative loss gives stock back.
pub open spec fn stock_after_loss(stock: int, quantity: int) -> Option<int> {
    if stock - quantity < 0 {
        None
    } else {
        Some(stock - quantity)
    }
}

/// The stock after a resupply of `quantity`; none where it would go below zero.
/// A negative resupply takes stock away.
pub open spec fn stock_after_resupply(stock: int, quantity: int) -> Option<int> {
    if stock + quantity < 0 {
        None
    } else {
        Some(stock + quantity)
    }
}

/// Decides a stock loss on an item that holds `stock`: the new stock, or the refusal
/// that tells the current stock when the loss is higher than it.
pub fn stock_loss_outcome(stock: i32, quantity: i32) -> (r: Result<i32, ServiceError>)
    requires
        i32::MIN <= stock - quantity <= i32::MAX,
    ensures
        stock - quantity >= 0 ==> (r matches Ok(n) && n == stock - quantity),
        stock - quantity < 0 ==> r is Err,
        r is Ok <==> stock_after_loss(stock as int, quantity as int) is Some,
        r matches Ok(n) ==> stock_after_loss(stock as int, quantity as int) == Some(n as int),
        r matches Err(e) ==> e@ == ServiceErrorView::Input(
            "Stock loss is higher than current stock. The current stock is "@ + decimal_text(
                stock as int,
            ),
        ),
{
    if stock - quantity < 0 {
        let mut msg = String::from_str("Stock loss is higher than current stock. The current stock is ");
        append_decimal(&mut msg, stock as i64);
        return Err(ServiceError::Input(msg));
    }
    Ok(stock - quantity)
}

/// Decides a stock resupply on an item that holds `stock`: the new stock, or the refusal
/// that tells the current stock when the change would take it below zero.
pub fn stock_resupply_outcome(stock: i32, quantity: i32) -> (r: Result<i32, ServiceError>)
    requires
        i32::MIN <= stock + quantity <= i32::MAX,
    ensures
        stock + quantity >= 0 ==> (r matches Ok(n) && n == stock + quantity),
        stock + quantity < 0 ==> r is Err,
        r is Ok <==> stock_after_resupply(stock as int, quantity as int) is Some,
        r matches Ok(n) ==> stock_after_resupply(stock as int, quantity as int) == Some(n as int),
        r matches Err(e) ==> e@ == ServiceErrorView::Input(
            "Stock resupply change would be reduce stock below 0. The current stock is "@
                + decimal_text(stock as int),
        ),
{
    if stock + quantity < 0 {
        let mut msg = String::from_str(
            "Stock resupply change would be reduce stock below 0. The current stock is ",
        );
        append_decimal(&mut msg, stock as i64);
        return Err(ServiceError::Input(msg));
    }
    Ok(stock + quantity)
}

/// The answer to a stock change once the database has recorded it: the new stock,
/// or the database's error.
pub fn stock_update_outcome(recorded: Result<(), DatabaseError>, new_stock: i32) -> (r: Result<
    i32,
    ServiceError,
>)
    ensures
        match recorded {
            Ok(()) => r == Ok::<i32, ServiceError>(new_stock),
            Err(e) => r == Err::<i32, ServiceError>(ServiceError::Database(e)),
        },
{
    match recorded {
        Ok(()) => Ok(new_stock),
        Err(e) => Err(ServiceError::Database(e)),
    }
}

/// The day of a stock change: the date that the request names, or `today`. A named date
/// that does not exist is refused.
pub fn requested_day(date: &Option<Date>, today: i32) -> (r: Result<i32, ErrorReply>)
    ensures
        match date {
            None => r == Ok::<i32, ErrorReply>(today),
            Some(d) => if is_valid_date(d.year as int, d.month as int, d.day as int) {
                r == Ok::<i32, ErrorReply>(calendar_day_number(d.year, d.month, d.day))
            } else {
                r matches Err(e) && e@ == (ErrorReplyView {
                    status: ReplyStatus::BadRequest,
                    message: "Invalid date provided"@,
                })
            },
        },
        date is Some ==> (r matches Ok(n) ==> day_number_in_range(n as int)),
{
    match date {
        None => Ok(today),
        Some(d) => match day_number(d.year, d.month, d.day) {
            Some(n) => Ok(n),
            None => Err(
                ErrorReply {
                    status: ReplyStatus::BadRequest,
                    message: String::from_str("Invalid date provided"),
                },
            ),
        },
    }
}

/// A loss is a resupply of the opposite quantity, and neither leaves a negative stock.
pub proof fn lemma_loss_is_opposite_resupply(stock: int, quantity: int)
    ensures
        stock_after_loss(stock, quantity) == stock_after_resupply(stock, -quantity),
        stock_after_loss(stock, quantity) matches Some(n) ==> n >= 0,
        stock_after_resupply(stock, quantity) matches Some(n) ==> n >= 0,
{
}

/// From a stock that is not negative, a resupply undoes the loss of the same quantity,
/// and a loss undoes the resupply of the same quantity.
pub proof fn lemma_resupply_undoes_loss(stock: int, quantity: int)
    requires
        stock >= 0,
    ensures
        stock_after_loss(stock, quantity) matches Some(n) ==> stock_after_resupply(n, quantity)
            == Some(stock),
        stock_after_resupply(stock, quantity) matches Some(n) ==> stock_after_loss(n, quantity)
            == Some(stock),
{
}

/// A loss is refused exactly when it would take the stock below zero, and otherwise leaves
/// the stock less the quantity; a resupply likewise, with the stock plus the quantity.
pub proof fn lemma_stock_change_refused_only_below_zero(stock: int, quantity: int)
    ensures
        stock - quantity >= 0 ==> stock_after_loss(stock, quantity) == Some(stock - quantity),
        stock - quantity < 0 ==> stock_after_loss(stock, quantity) is None,
        stock + quantity >= 0 ==> stock_after_resupply(stock, quantity) == Some(stock + quantity),
        stock + quantity < 0 ==> stock_after_resupply(stock, quantity) is None,
{
}

/// A larger loss never leaves more stock, and a loss that is accepted stays accepted when
/// it is made smaller.
pub proof fn lemma_loss_monotone(stock: int, smaller: int, larger: int)
    requires
        smaller <= larger,
    ensures
        stock_after_loss(stock, larger) matches Some(n) ==> stock_after_loss(stock, smaller)
            matches Some(m) && m >= n,
{
}

} // verus!
