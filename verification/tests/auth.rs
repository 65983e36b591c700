use storeman_core::auth::rbac::{require_can_admin, require_can_approve, require_can_export,
    require_can_transact, require_can_view_controlled};
use storeman_core::{authenticate, hash_password, verify_password, Database, Role, StoremanError, User};

fn user(role: Role) -> User {
    User {
        id: 7,
        username: "u".to_string(),
        display_name: "U".to_string(),
        role,
        rank: String::new(),
        active: true,
        created_at: "2024-01-01T00:00:00+00:00".to_string(),
        last_login: None,
    }
}

#[test]
fn hash_then_verify() {
    let h = hash_password("s3cret").unwrap();
    assert!(h.starts_with("$argon2"));
    assert!(verify_password("s3cret", &h));
    assert!(!verify_password("wrong", &h));
    assert!(!verify_password("s3cret", "not a hash"));
}

#[test]
fn default_admin_signs_in() {
    let mut db = Database::open_in_memory().unwrap();
    let u = authenticate(&mut db, "admin", "admin").unwrap();
    assert_eq!(u.username, "admin");
    assert_eq!(u.display_name, "System Admin");
    assert!(matches!(u.role, Role::Admin));
    let (after, _) = db.get_user_by_username("admin").unwrap().unwrap();
    assert!(after.last_login.is_some());
}

#[test]
fn wrong_password_or_unknown_user_fails() {
    let mut db = Database::open_in_memory().unwrap();
    assert!(matches!(authenticate(&mut db, "admin", "nope"), Err(StoremanError::AuthFailed)));
    assert!(matches!(authenticate(&mut db, "ghost", "admin"), Err(StoremanError::AuthFailed)));
    let (admin, _) = db.get_user_by_username("admin").unwrap().unwrap();
    assert!(admin.last_login.is_none());
}

#[test]
fn registered_password_signs_in_and_inactive_user_cannot() {
    let mut db = Database::open_in_memory().unwrap();
    let mut u = user(Role::Storeman);
    u.username = "jones".to_string();
    let h = hash_password("pw").unwrap();
    db.create_user(&u, &h).unwrap();
    let got = authenticate(&mut db, "jones", "pw").unwrap();
    assert_eq!(got.id, 7);
    u.active = false;
    db.update_user(&u).unwrap();
    assert!(matches!(authenticate(&mut db, "jones", "pw"), Err(StoremanError::AuthFailed)));
}

#[test]
fn duplicate_username_is_refused() {
    let mut db = Database::open_in_memory().unwrap();
    let mut u = user(Role::Storeman);
    u.username = "admin".to_string();
    match db.create_user(&u, "h") {
        Err(StoremanError::Database(m)) => assert_eq!(m, "UNIQUE constraint failed: users.username"),
        _ => panic!("expected a refusal"),
    }
}

#[test]
fn role_permissions() {
    assert!(require_can_transact(&user(Role::Storeman)).is_ok());
    assert!(require_can_transact(&user(Role::Officer)).is_err());
    assert!(require_can_approve(&user(Role::CQMS)).is_ok());
    assert!(require_can_approve(&user(Role::Storeman)).is_err());
    assert!(require_can_export(&user(Role::Inspector)).is_ok());
    assert!(require_can_export(&user(Role::Storeman)).is_err());
    assert!(require_can_admin(&user(Role::Admin)).is_ok());
    assert!(require_can_admin(&user(Role::CQMS)).is_err());
    assert!(require_can_view_controlled(&user(Role::Inspector)).is_ok());
    match require_can_view_controlled(&user(Role::Officer)) {
        Err(StoremanError::Unauthorized(m)) => assert_eq!(m, "Officer cannot view controlled items"),
        _ => panic!("expected a refusal"),
    }
    match require_can_admin(&user(Role::Storeman)) {
        Err(StoremanError::Unauthorized(m)) => assert_eq!(m, "Storeman does not have admin access"),
        _ => panic!("expected a refusal"),
    }
}

#[test]
fn permissions_nest() {
    for r in [Role::Storeman, Role::CQMS, Role::Officer, Role::Inspector, Role::Admin] {
        if r.can_admin() {
            assert!(r.can_approve() && r.can_transact() && r.can_export());
        }
        if r.can_approve() {
            assert!(r.can_transact());
        }
    }
}
