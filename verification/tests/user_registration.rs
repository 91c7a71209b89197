use axum_services::user_registration::errors::AppError;
use axum_services::user_registration::models::RegisterUser;
use axum_services::user_registration::state::UserRegistry;

fn request(name: &str, email: &str, age: u8) -> RegisterUser {
    RegisterUser { name: name.to_string(), email: email.to_string(), age }
}

#[test]
fn valid_request_passes_validation() {
    assert!(request("Ann", "ann@example.com", 18).validate().is_ok());
}

#[test]
fn each_rule_reports_its_field() {
    assert_eq!(
        request("Al", "al@example.com", 30).validate().unwrap_err(),
        "name: Name must be atleast three characters length"
    );
    assert_eq!(
        request("Alan", "not-an-email", 30).validate().unwrap_err(),
        "email: Invalid email address"
    );
    assert_eq!(
        request("Alan", "alan@example.com", 17).validate().unwrap_err(),
        "age: Age must be at least 18"
    );
}

#[test]
fn several_failures_are_reported_one_per_line() {
    let report = request("Al", "x", 3).validate().unwrap_err();
    let mut lines: Vec<&str> = report.split('\n').collect();
    lines.sort();
    assert_eq!(
        lines,
        vec![
            "age: Age must be at least 18",
            "email: Invalid email address",
            "name: Name must be atleast three characters length",
        ]
    );
}

#[test]
fn name_length_counts_characters() {
    assert!(request("Zoë", "z@example.com", 20).validate().is_ok());
    assert!(request("Zö", "z@example.com", 20).validate().is_err());
}

#[test]
fn registration_numbers_users_and_lists_them() {
    let mut registry = UserRegistry::new();
    let a = registry.register_json(request("Ann", "ann@example.com", 20)).unwrap();
    assert_eq!(a.state, "success");
    assert_eq!(a.data.as_ref().unwrap().id, 1);
    let b = registry.register_form(request("Bob", "bob@example.com", 40)).unwrap();
    assert_eq!(b.data.as_ref().unwrap().id, 2);
    let listed = registry.list_users();
    assert_eq!(listed.state, "ok");
    let users = listed.data.unwrap();
    assert_eq!(users.len(), 2);
    assert_eq!(users[0].email, "ann@example.com");
    assert_eq!(users[1].name, "Bob");
    assert_eq!(users[1].age, 40);
}

#[test]
fn invalid_registration_changes_nothing() {
    let mut registry = UserRegistry::new();
    match registry.register_json(request("Al", "al@example.com", 20)) {
        Err(AppError::Validation(m)) => {
            assert_eq!(m, "name: Name must be atleast three characters length")
        }
        _ => panic!("expected a validation error"),
    }
    assert!(registry.list_users().data.unwrap().is_empty());
    let a = registry.register_json(request("Ann", "ann@example.com", 20)).unwrap();
    assert_eq!(a.data.unwrap().id, 1);
}

#[test]
fn plain_registration_accepts_a_repeated_email() {
    let mut registry = UserRegistry::new();
    registry.register_json(request("Ann", "ann@example.com", 20)).unwrap();
    assert!(registry.register_json(request("Ann", "ANN@example.com", 20)).is_ok());
    assert_eq!(registry.list_users().data.unwrap().len(), 2);
}

#[test]
fn strict_registration_refuses_an_email_in_any_ascii_case() {
    let mut registry = UserRegistry::new();
    registry.register_json_unique(request("Ann", "ann@example.com", 20)).unwrap();
    match registry.register_json_unique(request("Anne", "ANN@Example.COM", 22)) {
        Err(AppError::Internal(m)) => assert_eq!(m, "Email already registered"),
        _ => panic!("expected the address to be taken"),
    }
    let c = registry.register_json_unique(request("Cy", "cy@example.com", 22));
    assert!(matches!(c, Err(AppError::Validation(_))));
    let d = registry.register_json_unique(request("Dora", "dora@example.com", 22)).unwrap();
    assert_eq!(d.data.unwrap().id, 2);
}

#[test]
fn registration_error_statuses() {
    assert_eq!(AppError::Validation("v".to_string()).status_code(), 400);
    assert_eq!(AppError::Internal("i".to_string()).status_code(), 500);
    assert_eq!(AppError::ImvalidEmail("e".to_string()).status_code(), 500);
    assert_eq!(AppError::ImvalidEmail("e".to_string()).message(), "e");
}
