use stock_manager::database_error::{
    check_reduction_quantity, movement_outcome, removal_outcome, row_or_not_found, DatabaseError,
    Kind,
};
use stock_manager::service_error::{into_service_result, ServiceError};

#[test]
fn not_found_error_reads_item_not_found() {
    let e = DatabaseError::not_found();
    assert_eq!(e.0, Kind::ItemNotFound);
    assert_eq!(e.1, "");
    assert!(e.2.is_none());
    assert_eq!(e.to_string(), "Item not found");
    assert!(e.cause().is_none());
}

#[test]
fn pool_error_reads_connection_error_with_cause() {
    let e = DatabaseError::from_pool_error("timed out".to_string());
    assert_eq!(e.0, Kind::Connection);
    assert_eq!(e.1, "Pool error");
    assert_eq!(e.to_string(), "Connection error: timed out");
    assert_eq!(e.cause().map(|c| c.as_str()), Some("timed out"));
}

#[test]
fn constructors_keep_their_messages() {
    assert_eq!(DatabaseError::from_create_pool_error("x".to_string()).1, "Error creating pool");
    assert_eq!(DatabaseError::from_config_error("x".to_string()).1, "Configuration error");
    assert_eq!(DatabaseError::from_postgres_error("x".to_string()).1, "");
    assert_eq!(
        DatabaseError::connection_check_failure("x".to_string()).1,
        "Error checking connection"
    );
    let q = DatabaseError::query_failure("Error getting item", "syntax".to_string());
    assert_eq!(q.0, Kind::Query);
    assert_eq!(q.1, "Error getting item");
    assert_eq!(q.to_string(), "Query execution error: syntax");
}

#[test]
fn query_error_without_cause_reads_kind_only() {
    let e = check_reduction_quantity(0).unwrap_err();
    assert_eq!(e.to_string(), "Query execution error");
    assert_eq!(e.1, "Quantity must be a non-zero positive number");
}

#[test]
fn reduction_quantity_must_be_positive() {
    assert!(check_reduction_quantity(1).is_ok());
    assert!(check_reduction_quantity(-5).is_err());
    assert!(check_reduction_quantity(i32::MIN).is_err());
}

#[test]
fn movement_must_touch_exactly_one_row() {
    assert!(movement_outcome(1).is_ok());
    let e = movement_outcome(0).unwrap_err();
    assert_eq!(e.0, Kind::Query);
    assert_eq!(e.1, "Not exactly 1 modified rows in INSERT or UPDATE statement");
    assert!(movement_outcome(2).is_err());
}

#[test]
fn removal_of_nothing_is_not_found() {
    assert!(removal_outcome(1).is_ok());
    assert!(removal_outcome(3).is_ok());
    assert_eq!(removal_outcome(0).unwrap_err().0, Kind::ItemNotFound);
}

#[test]
fn missing_row_is_not_found() {
    assert_eq!(row_or_not_found(Some(7)).unwrap(), 7);
    assert_eq!(row_or_not_found::<i32>(None).unwrap_err().0, Kind::ItemNotFound);
}

#[test]
fn service_error_reads_its_origin() {
    let input = ServiceError::Input("bad".to_string());
    assert_eq!(input.to_string(), "Invalid input: bad");
    assert!(input.cause().is_none());
    let db = ServiceError::from(DatabaseError::not_found());
    assert_eq!(db.to_string(), "Database error: Item not found");
    assert_eq!(db.cause().map(|c| c.0), Some(Kind::ItemNotFound));
}

#[test]
fn database_results_become_service_results() {
    assert_eq!(into_service_result::<i32>(Ok(3)).unwrap(), 3);
    match into_service_result::<i32>(Err(DatabaseError::not_found())) {
        Err(ServiceError::Database(e)) => assert_eq!(e.0, Kind::ItemNotFound),
        _ => panic!("expected a database error"),
    }
}
