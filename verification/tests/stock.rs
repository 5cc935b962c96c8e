use stock_manager::calendar::day_number;
use stock_manager::database_error::DatabaseError;
use stock_manager::replies::ReplyStatus;
use stock_manager::service_error::ServiceError;
use stock_manager::stock::{
    requested_day, stock_loss_outcome, stock_resupply_outcome, stock_update_outcome, Date,
};
use stock_manager::text::append_decimal;

fn input(r: Result<i32, ServiceError>) -> String {
    match r {
        Err(ServiceError::Input(msg)) => msg,
        _ => panic!("expected an input error"),
    }
}

#[test]
fn loss_reduces_stock() {
    assert_eq!(stock_loss_outcome(10, 4).unwrap(), 6);
    assert_eq!(stock_loss_outcome(10, 10).unwrap(), 0);
    assert_eq!(stock_loss_outcome(10, -5).unwrap(), 15);
}

#[test]
fn loss_above_stock_is_refused() {
    assert_eq!(
        input(stock_loss_outcome(3, 4)),
        "Stock loss is higher than current stock. The current stock is 3"
    );
}

#[test]
fn resupply_raises_stock() {
    assert_eq!(stock_resupply_outcome(10, 4).unwrap(), 14);
    assert_eq!(stock_resupply_outcome(10, -10).unwrap(), 0);
}

#[test]
fn resupply_below_zero_is_refused() {
    assert_eq!(
        input(stock_resupply_outcome(7, -8)),
        "Stock resupply change would be reduce stock below 0. The current stock is 7"
    );
}

#[test]
fn resupply_undoes_loss() {
    let after = stock_loss_outcome(25, 9).unwrap();
    assert_eq!(stock_resupply_outcome(after, 9).unwrap(), 25);
    assert_eq!(stock_loss_outcome(25, 9).unwrap(), stock_resupply_outcome(25, -9).unwrap());
}

#[test]
fn recorded_change_returns_new_stock() {
    assert_eq!(stock_update_outcome(Ok(()), 12).unwrap(), 12);
    match stock_update_outcome(Err(DatabaseError::not_found()), 12) {
        Err(ServiceError::Database(e)) => assert_eq!(e.to_string(), "Item not found"),
        _ => panic!("expected a database error"),
    }
}

#[test]
fn request_date_or_today() {
    let today = day_number(2024, 6, 1).unwrap();
    assert_eq!(requested_day(&None, today).unwrap(), today);
    let named = Some(Date { day: 29, month: 2, year: 2024 });
    assert_eq!(requested_day(&named, today).unwrap(), day_number(2024, 2, 29).unwrap());
    let bad = Some(Date { day: 30, month: 2, year: 2024 });
    let e = requested_day(&bad, today).unwrap_err();
    assert_eq!(e.status, ReplyStatus::BadRequest);
    assert_eq!(e.message, "Invalid date provided");
}

#[test]
fn decimal_text_matches_display() {
    for n in [0i64, 7, 10, -1, -45, 1234567890, i64::MIN, i64::MAX] {
        let mut s = String::from("n=");
        append_decimal(&mut s, n);
        assert_eq!(s, format!("n={}", n));
    }
}
