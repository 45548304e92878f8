use pharma_lib::queries::accounts::{
    self, AccountInfo, AccountInfoQueryRes, CreateErr, EmployeeInfo, LoginErr, Permissions,
};
use pharma_lib::queries::sessions::{self, Permission};
use pharma_lib::queries::DbErrKind;

const HELLO_HASH: &str = "2CF24DBA5FB0A30E26E83B2AC5B9E29E1B161E5C1FA7425E73043362938B9824";

fn row(password: &str, with_employee: bool) -> AccountInfoQueryRes {
    AccountInfoQueryRes {
        id: 11,
        login: "olha".to_string(),
        password: password.to_string(),
        employee_id: Some(3),
        surname: Some("Kosach".to_string()),
        name: Some("Olha".to_string()),
        patronim: Some("P.".to_string()),
        location_id: Some(2),
        location_name: if with_employee { Some("Main".to_string()) } else { None },
        can_manage_empl: Some(1),
        can_manage_products: Some(0),
        can_manage_categories: Some(-1),
        can_sell_products: Some(5),
        can_manage_locations: Some(0),
    }
}

#[test]
fn password_hash_is_uppercase_sha256() {
    assert_eq!(accounts::hash_password("hello"), HELLO_HASH);
    assert_eq!(
        accounts::hash_password(""),
        "E3B0C44298FC1C149AFBF4C8996FB92427AE41E4649B934CA495991B7852B855"
    );
}

#[test]
fn registering_stores_the_hash() {
    let a = accounts::create("olha".to_string(), "hello1".to_string(), Some(3)).unwrap();
    assert_eq!(a.login, "olha");
    assert_eq!(a.password, accounts::hash_password("hello1"));
    assert_eq!(a.password.len(), 64);
    assert_eq!(a.employee, Some(3));
}

#[test]
fn short_passwords_are_refused() {
    assert!(matches!(
        accounts::create("x".to_string(), "hello".to_string(), None),
        Err(CreateErr::InvalidPassword)
    ));
    assert!(matches!(accounts::create("x".to_string(), "".to_string(), None), Err(CreateErr::InvalidPassword)));
}

#[test]
fn password_length_counts_bytes() {
    // Three Cyrillic letters are six bytes.
    assert!(accounts::create("x".to_string(), "абв".to_string(), None).is_ok());
    assert!(matches!(accounts::create("x".to_string(), "аб".to_string(), None), Err(CreateErr::InvalidPassword)));
}

#[test]
fn login_with_the_registered_password() {
    let stored = accounts::create("olha".to_string(), "secret1".to_string(), None).unwrap().password;
    let info = accounts::login(Ok(Some(row(&stored, true))), "secret1").unwrap();
    assert_eq!(info.id, 11);
    assert_eq!(info.login, "olha");
    assert_eq!(info.token, None);
    assert_eq!(
        info.employee,
        Some(EmployeeInfo {
            id: 3,
            surname: "Kosach".to_string(),
            name: "Olha".to_string(),
            patronim: "P.".to_string(),
            location_id: 2,
            location_name: "Main".to_string(),
            permissions: Permissions::new(true, false, false, true, false),
        })
    );
}

#[test]
fn login_with_another_password_is_refused() {
    let r = accounts::login(Ok(Some(row(HELLO_HASH, true))), "hello!");
    assert!(matches!(r, Err(LoginErr::InvalidPassword)));
    // The stored hash is compared as written: a lowercase hash never matches.
    let r = accounts::login(Ok(Some(row(&HELLO_HASH.to_lowercase(), true))), "hello");
    assert!(matches!(r, Err(LoginErr::InvalidPassword)));
}

#[test]
fn login_lookup_errors() {
    assert!(matches!(accounts::login(Err(DbErrKind::RecordNotFound), "x"), Err(LoginErr::NotFound)));
    assert!(matches!(accounts::login(Err(DbErrKind::Other), "x"), Err(LoginErr::Internal)));
    assert!(matches!(accounts::login(Err(DbErrKind::RecordNotInserted), "x"), Err(LoginErr::Internal)));
}

#[test]
fn account_without_complete_employee_has_none() {
    let info = AccountInfo::from(row(HELLO_HASH, false));
    assert_eq!(info.employee, None);
    assert_eq!(info, AccountInfo::new(11, "olha".to_string(), None));
}

#[test]
fn permissions_from_flags() {
    assert_eq!(Permissions::from_i8(1, 0, -3, 127, 2), Permissions::new(true, false, false, true, true));
    let p = Permissions::from_i8(0, 1, 0, 0, 0);
    assert!(p.has(Permission::ManageProducts));
    assert!(!p.has(Permission::ManageEmpl));
    assert!(!p.has(Permission::SellProducts));
}

#[test]
fn session_permission_lookup() {
    assert!(sessions::can(Ok(Some(1))));
    assert!(sessions::can(Ok(Some(100))));
    assert!(!sessions::can(Ok(Some(0))));
    assert!(!sessions::can(Ok(Some(-1))));
    assert!(!sessions::can(Ok(None)));
    assert!(!sessions::can(Err(DbErrKind::Other)));
}
