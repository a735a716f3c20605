use csc1106::calendar::{Date, DateTime};
use csc1106::entity::party::{PartyStatus, PartyType};
use csc1106::entity::user::{Model as UserModel, Role, UserStatus};
use csc1106::middleware::auth::{cache_entry_fresh, Authenticated};
use csc1106::middleware::permissions::{permits, role_set, AdminOnly, Finance};
use csc1106::middleware::tera_filters::can;
use csc1106::models::error::AuthError;
use csc1106::models::party::{Party, PartyStats};
use csc1106::models::user::{hash_password, User};

fn noon(y: i32, m: u32, d: u32) -> DateTime {
    DateTime::and_hms_opt(Date::from_ymd_opt(y, m, d).unwrap(), 12, 0, 0).unwrap()
}

fn user(hash: &str, disabled: bool) -> User {
    User {
        id: 1,
        name: "Ada".to_string(),
        email: "ada@example.test".to_string(),
        password_hash: hash.to_string(),
        role: Role::Accountant,
        disabled,
        created_at: noon(2024, 1, 1),
        updated_at: noon(2024, 1, 1),
    }
}

fn record(hash: &str) -> UserModel {
    UserModel {
        id: 1,
        email: "ada@example.test".to_string(),
        name: "Ada".to_string(),
        password_hash: hash.to_string(),
        role: Role::Staff,
        disabled: false,
        created_at: noon(2024, 1, 1),
        updated_at: noon(2024, 1, 1),
    }
}

#[test]
fn hashed_password_verifies() {
    let h = hash_password("s3cret").unwrap();
    assert!(h.starts_with("$argon2"));
    let u = user(&h, false);
    assert!(u.verify_password("s3cret").is_ok());
}

#[test]
fn sign_in_needs_the_right_password() {
    let h = hash_password("s3cret").unwrap();
    assert!(matches!(User::authenticate(Some(user(&h, false)), "S3cret"), Err(AuthError::InvalidCredentials)));
}

#[test]
fn sign_in_refuses_disabled_missing_and_malformed() {
    assert!(matches!(User::authenticate(Some(user("$argon2id$whatever", true)), "x"), Err(AuthError::InvalidCredentials)));
    assert!(matches!(User::authenticate(None, "x"), Err(AuthError::InvalidCredentials)));
    assert!(user("not a hash", false).verify_password("x").is_err());
    assert_eq!(AuthError::InvalidCredentials.message(), "Invalid credentials");
}

#[test]
fn created_user_signs_in() {
    let nu = User::create("ada@example.test", "Ada", "pw-1", Role::Admin, noon(2024, 3, 1)).unwrap();
    assert!(!nu.disabled);
    assert_eq!(nu.role, Role::Admin);
    assert_eq!(nu.created_at.date.day(), 1);
    let stored = User { id: 4, name: nu.name.clone(), email: nu.email.clone(), password_hash: nu.password_hash.clone(), role: nu.role, disabled: false, created_at: nu.created_at, updated_at: nu.updated_at };
    let signed = User::authenticate(Some(stored), "pw-1").unwrap();
    assert_eq!(signed.id, 4);
}

#[test]
fn user_updates_and_disabling() {
    let u = User::update(Some(record("old-hash")), Some("new@example.test"), None, None, Some(Role::Accountant), noon(2024, 4, 2)).unwrap();
    assert_eq!(u.email, "new@example.test");
    assert_eq!(u.name, "Ada");
    assert_eq!(u.password_hash, "old-hash");
    assert_eq!(u.role, Role::Accountant);
    assert_eq!(u.updated_at.date.month(), 4);
    assert!(matches!(User::update(None, None, None, None, None, noon(2024, 4, 2)), Err(AuthError::NotFound)));
    let d = User::set_disabled(Some(record("h")), true, noon(2024, 4, 3)).unwrap();
    assert!(d.disabled);
    assert!(matches!(User::set_disabled(None, true, noon(2024, 4, 3)), Err(AuthError::NotFound)));
    assert!(Authenticated::from_user(&d).is_none());
    let a = Authenticated::from_user(&user("h", false)).unwrap();
    assert_eq!((a.id, a.role), (1, Role::Accountant));
}

#[test]
fn roles_and_statuses_parse() {
    assert_eq!(Role::parse(" Admin "), Some(Role::Admin));
    assert_eq!(Role::parse("ACCOUNTANT"), Some(Role::Accountant));
    assert_eq!(Role::parse("boss"), None);
    assert_eq!(Role::labels(), vec!["Staff", "Accountant", "Admin"]);
    assert_eq!(UserStatus::parse("disabled"), Some(UserStatus::Disabled));
    assert!(UserStatus::Disabled.disabled());
    assert!(!UserStatus::Active.disabled());
    assert_eq!(PartyType::parse("Vendor"), Some(PartyType::Vendor));
    assert_eq!(PartyStatus::parse(" inactive"), Some(PartyStatus::Inactive));
}

#[test]
fn role_sets_and_permissions() {
    assert_eq!(role_set(" finance "), Some(vec![Role::Admin, Role::Accountant]));
    assert_eq!(role_set("ADMIN"), Some(vec![Role::Admin]));
    assert_eq!(role_set("staff"), None);
    assert!(permits::<Finance>(Role::Accountant));
    assert!(!permits::<AdminOnly>(Role::Accountant));
    assert!(!permits::<Finance>(Role::Staff));
    assert!(can(Some("Accountant"), Some("finance")));
    assert!(!can(Some("Staff"), Some("finance")));
    assert!(!can(Some("Accountant"), Some("admin")));
    assert!(!can(None, Some("admin")));
    assert!(!can(Some("Admin"), Some("nobody")));
}

#[test]
fn cached_users_expire_after_five_minutes() {
    assert!(cache_entry_fresh(0, 0));
    assert!(cache_entry_fresh(299, 999_999_999));
    assert!(!cache_entry_fresh(300, 0));
    assert!(!cache_entry_fresh(301, 5));
}

#[test]
fn party_records_and_stats() {
    let p = Party::create(PartyType::Customer, "Acme", Some("Acme Pte"), "  Sales@ACME.test ", "123", "1 Road", noon(2024, 2, 1));
    assert_eq!(p.email, "sales@acme.test");
    assert_eq!(p.status, PartyStatus::Active);
    assert_eq!(p.company.as_deref(), Some("Acme Pte"));
    let s = PartyStats::compute(&[
        (PartyType::Customer, PartyStatus::Active),
        (PartyType::Vendor, PartyStatus::Active),
        (PartyType::Customer, PartyStatus::Inactive),
        (PartyType::Customer, PartyStatus::Active),
    ]);
    assert_eq!((s.total, s.active_customers, s.active_vendors), (4, 2, 1));
}

#[test]
fn password_change_is_hashed_and_signs_in() {
    let u = User::update(Some(record("old-hash")), None, None, Some("new-pw"), None, noon(2024, 4, 2)).unwrap();
    assert_ne!(u.password_hash, "old-hash");
    assert!(u.verify_password("new-pw").is_ok());
    assert!(User::authenticate(Some(u), "new-pw").is_ok());
}
