use recalc::error::ErrorKind;
use recalc::role::{require_role, Role};

#[test]
fn test_role_from_string() {
    assert_eq!(Role::from_name("User"), Some(Role::User));
    assert_eq!(Role::from_name("Manager"), Some(Role::Manager));
    assert_eq!(Role::from_name("Admin"), Some(Role::Admin));
    // An unknown stored name is refused instead of falling back to User.
    assert_eq!(Role::from_name(""), None);
}

#[test]
fn test_compare_roles() {
    assert!(Role::User == Role::User);
    assert!(Role::Manager == Role::Manager);
    assert!(Role::Admin == Role::Admin);

    assert!(Role::User < Role::Manager);
    assert!(Role::Manager < Role::Admin);
}

#[test]
fn role_order_meets_minimum() {
    assert!(Role::Manager.meets(Role::User));
    assert!(Role::Admin.meets(Role::Manager));
    assert!(!Role::User.meets(Role::Manager));
    assert!(Role::User.meets(Role::User));
    assert!(!Role::Manager.meets(Role::Admin));
    assert!(Role::Admin > Role::User);
    assert_eq!(Role::User.rank(), 0);
    assert_eq!(Role::Admin.rank(), 2);
}

#[test]
fn role_names_round_trip() {
    for r in [Role::User, Role::Manager, Role::Admin] {
        assert_eq!(Role::from_name(&r.to_string()), Some(r));
    }
    assert_eq!(Role::Manager.to_string(), "Manager");
    assert_eq!(Role::from_name("admin"), None);
}

#[test]
fn require_role_gates() {
    assert_eq!(require_role(Role::User, Role::Manager), Err(ErrorKind::Forbidden));
    assert_eq!(require_role(Role::Manager, Role::Manager), Ok(()));
    assert_eq!(require_role(Role::Admin, Role::Manager), Ok(()));
}

#[test]
fn error_status_codes() {
    assert_eq!(ErrorKind::Unauthenticated.status_code(), 401);
    assert_eq!(ErrorKind::Forbidden.status_code(), 403);
    assert_eq!(ErrorKind::NotFound.status_code(), 404);
    assert_eq!(ErrorKind::AlreadyProcessed.status_code(), 409);
    assert_eq!(ErrorKind::ValidationFailed.status_code(), 400);
    assert_eq!(ErrorKind::StorageUnavailable.status_code(), 500);
}
