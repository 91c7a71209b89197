use axum_services::state_management::errors::AppError;
use axum_services::state_management::handlers::{delete_outcome, found_or_not_found};

#[test]
fn missing_row_is_not_found() {
    match found_or_not_found::<u32>(None) {
        Err(AppError::NotFound(m)) => assert_eq!(m, "User not found"),
        _ => panic!("expected not found"),
    }
    assert!(matches!(found_or_not_found(Some(7u32)), Ok(7)));
}

#[test]
fn delete_of_nothing_is_not_found() {
    match delete_outcome(0) {
        Err(AppError::NotFound(m)) => assert_eq!(m, "User not found"),
        _ => panic!("expected not found"),
    }
    assert_eq!(delete_outcome(1).ok().as_deref(), Some("deleted"));
    assert_eq!(delete_outcome(3).ok().as_deref(), Some("deleted"));
}

#[test]
fn crud_error_statuses() {
    let cases = vec![
        (AppError::NotFound("a".to_string()), 404u16, "a"),
        (AppError::Conflict("b".to_string()), 409, "b"),
        (AppError::Database("c".to_string()), 500, "c"),
        (AppError::Internal("d".to_string()), 500, "d"),
    ];
    for (e, status, message) in cases {
        assert_eq!(e.status_code(), status);
        assert_eq!(e.message(), message);
    }
}

#[test]
fn database_failure_keeps_its_description() {
    match AppError::from_database("pool timed out".to_string()) {
        AppError::Database(m) => assert_eq!(m, "pool timed out"),
        _ => panic!("expected a database error"),
    }
}
