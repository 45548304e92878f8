//! Accounts: registering one, and logging in with one.

use vstd::prelude::*;
use crate::queries::DbErrKind;
use crate::queries::sessions::Permission;

verus! {

/// Why an account could not be registered.
#[derive(Clone, Copy, Debug, PartialEq, Eq, Structural)]
pub enum CreateErr {
    Exists,
    InvalidPassword,
    NotAuthorized,
}

/// Why a login was refused.
#[derive(Clone, Copy, Debug, PartialEq, Eq, Structural)]
pub enum LoginErr {
    NotFound,
    InvalidPassword,
    Internal,
}

/// The digest that `sha256::digest` gives of a text: the SHA-256 hash of its
/// UTF-8 bytes, written in hexadecimal.
pub uninterp spec fn sha256_hex(text: Seq<char>) -> Seq<char>;

/// A digit of lowercase hexadecimal.
pub open spec fn is_lower_hex_digit(c: char) -> bool {
    ('0' <= c && c <= '9') || ('a' <= c && c <= 'f')
}

/// A digit of uppercase hexadecimal.
pub open spec fn is_upper_hex_digit(c: char) -> bool {
    ('0' <= c && c <= '9') || ('A' <= c && c <= 'F')
}

/// Calls `sha256::digest` on the text. Claimed of it: the result is
/// `sha256_hex` of the text, and, as the crate writes the 32 bytes of the
/// hash with `hex::encode`, it is 64 lowercase hexadecimal digits.
#[verifier::external_body]
fn sha256_digest(text: &str) -> (hex: String)
    ensures
        hex@ == sha256_hex(text@),
        hex@.len() == 64,
        forall|i: int| 0 <= i < 64 ==> is_lower_hex_digit(#[trigger] hex@[i]),
{
    sha256::digest(text)
}

/// A character with an ASCII lowercase letter turned to uppercase.
pub open spec fn upper_char(c: char) -> char {
    if 'a' <= c && c <= 'z' {
        ((c as int) - 32) as char
    } else {
        c
    }
}

/// A text with its ASCII lowercase letters turned to uppercase.
pub open spec fn ascii_upper(text: Seq<char>) -> Seq<char> {
    text.map_values(|c: char| upper_char(c))
}

/// Calls `str::to_ascii_uppercase`. Claimed of it, as its documentation
/// says: the letters `a` to `z` become `A` to `Z`, every other character
/// stays.
#[verifier::external_body]
fn ascii_uppercase(text: &str) -> (upper: String)
    ensures
        upper@ == ascii_upper(text@),
{
    text.to_ascii_uppercase()
}

/// What an account stores of a password: the uppercase hexadecimal SHA-256
/// digest of it.
pub open spec fn password_hash(password: Seq<char>) -> Seq<char> {
    ascii_upper(sha256_hex(password))
}

/// Hashes a password as accounts store it: 64 uppercase hexadecimal digits.
pub fn hash_password(password: &str) -> (hash: String)
    ensures
        hash@ == password_hash(password@),
        hash@.len() == 64,
        forall|i: int| 0 <= i < 64 ==> is_upper_hex_digit(#[trigger] hash@[i]),
{
    let digest = sha256_digest(password);
    let hash = ascii_uppercase(digest.as_str());
    assert forall|i: int| 0 <= i < 64 implies is_upper_hex_digit(#[trigger] hash@[i]) by {
        assert(is_lower_hex_digit(digest@[i]));
    }
    hash
}

/// The number of bytes of a text in UTF-8.
pub open spec fn byte_len(text: Seq<char>) -> nat {
    vstd::utf8::encode_utf8(text).len()
}

/// The fewest bytes that a password may have.
pub const MIN_PASSWORD_BYTES: usize = 6;

/// An account record to insert.
#[derive(Debug, PartialEq)]
pub struct NewAccount {
    pub login: String,
    pub password: String,
    pub employee: Option<i32>,
}

/// The record that registering an account inserts: the login, the hash of
/// the password, and the employee it belongs to. A password of fewer than
/// six bytes is refused.
pub fn create(login: String, password: String, employee: Option<i32>) -> (r: Result<NewAccount, CreateErr>)
    requires
        byte_len(password@) <= usize::MAX,
    ensures
        byte_len(password@) < MIN_PASSWORD_BYTES ==> r == Err::<NewAccount, CreateErr>(CreateErr::InvalidPassword),
        byte_len(password@) >= MIN_PASSWORD_BYTES ==> (r matches Ok(a) && a.login == login && a.password@
            == password_hash(password@) && a.employee == employee),
{
    if password.as_str().len() < MIN_PASSWORD_BYTES {
        return Err(CreateErr::InvalidPassword);
    }
    let password = hash_password(password.as_str());
    Ok(NewAccount { login, password, employee })
}

/// What an employee's position allows.
#[derive(Clone, Copy, Debug, PartialEq, Eq, Structural)]
pub struct Permissions {
    pub manage_empl: bool,
    pub manage_products: bool,
    pub manage_categories: bool,
    pub sell_products: bool,
    pub manage_locations: bool,
}

impl Permissions {
    /// Whether the permissions include `p`.
    pub open spec fn allows(self, p: Permission) -> bool {
        match p {
            Permission::ManageEmpl => self.manage_empl,
            Permission::ManageProducts => self.manage_products,
            Permission::ManageCategories => self.manage_categories,
            Permission::SellProducts => self.sell_products,
            Permission::ManageLocations => self.manage_locations,
        }
    }

    /// Whether the permissions include `p`.
    pub fn has(&self, p: Permission) -> (b: bool)
        ensures
            b == self.allows(p),
    {
        match p {
            Permission::ManageEmpl => self.manage_empl,
            Permission::ManageProducts => self.manage_products,
            Permission::ManageCategories => self.manage_categories,
            Permission::SellProducts => self.sell_products,
            Permission::ManageLocations => self.manage_locations,
        }
    }

    pub fn new(
        manage_empl: bool,
        manage_products: bool,
        manage_categories: bool,
        sell_products: bool,
        manage_locations: bool,
    ) -> (p: Permissions)
        ensures
            p == (Permissions { manage_empl, manage_products, manage_categories, sell_products, manage_locations }),
    {
        Permissions { manage_empl, manage_products, manage_categories, sell_products, manage_locations }
    }

    /// The permissions of a position's flags as stored: a flag grants its
    /// permission when it is above zero.
    pub open spec fn of_flags(
        manage_empl: i8,
        manage_products: i8,
        manage_categories: i8,
        sell_products: i8,
        manage_locations: i8,
    ) -> Permissions {
        Permissions {
            manage_empl: manage_empl > 0,
            manage_products: manage_products > 0,
            manage_categories: manage_categories > 0,
            sell_products: sell_products > 0,
            manage_locations: manage_locations > 0,
        }
    }

    pub fn from_i8(
        manage_empl: i8,
        manage_products: i8,
        manage_categories: i8,
        sell_products: i8,
        manage_locations: i8,
    ) -> (p: Permissions)
        ensures
            p == Self::of_flags(manage_empl, manage_products, manage_categories, sell_products, manage_locations),
    {
        Self::new(manage_empl > 0, manage_products > 0, manage_categories > 0, sell_products > 0, manage_locations > 0)
    }
}

/// The employee behind an account, where it works and what it may do.
#[derive(Debug, PartialEq)]
pub struct EmployeeInfo {
    pub id: i32,
    pub surname: String,
    pub name: String,
    pub patronim: String,
    pub location_id: i32,
    pub location_name: String,
    pub permissions: Permissions,
}

impl EmployeeInfo {
    pub fn new(
        id: i32,
        surname: String,
        name: String,
        patronim: String,
        location_id: i32,
        location_name: String,
        permissions: Permissions,
    ) -> (e: EmployeeInfo)
        ensures
            e == (EmployeeInfo { id, surname, name, patronim, location_id, location_name, permissions }),
    {
        EmployeeInfo { id, surname, name, patronim, location_id, location_name, permissions }
    }
}

/// A logged-in account: its employee, if any, and its session token once
/// one has been issued.
#[derive(Debug, PartialEq)]
pub struct AccountInfo {
    pub id: i32,
    pub login: String,
    pub employee: Option<EmployeeInfo>,
    pub token: Option<String>,
}

impl AccountInfo {
    pub fn new(id: i32, login: String, employee: Option<EmployeeInfo>) -> (a: AccountInfo)
        ensures
            a == (AccountInfo { id, login, employee, token: None }),
    {
        AccountInfo { id, login, employee, token: None }
    }
}

/// An account row joined with its employee, the employee's position and the
/// position's location; the employee's columns are empty where the account
/// has no employee.
#[derive(Debug, PartialEq)]
pub struct AccountInfoQueryRes {
    pub id: i32,
    pub login: String,
    pub password: String,
    pub employee_id: Option<i32>,
    pub surname: Option<String>,
    pub name: Option<String>,
    pub patronim: Option<String>,
    pub location_id: Option<i32>,
    pub location_name: Option<String>,
    pub can_manage_empl: Option<i8>,
    pub can_manage_products: Option<i8>,
    pub can_manage_categories: Option<i8>,
    pub can_sell_products: Option<i8>,
    pub can_manage_locations: Option<i8>,
}

/// Whether the row carries every column of an employee.
pub open spec fn has_employee(row: AccountInfoQueryRes) -> bool {
    &&& row.employee_id is Some
    &&& row.surname is Some
    &&& row.name is Some
    &&& row.patronim is Some
    &&& row.location_id is Some
    &&& row.location_name is Some
    &&& row.can_manage_empl is Some
    &&& row.can_manage_products is Some
    &&& row.can_manage_categories is Some
    &&& row.can_sell_products is Some
    &&& row.can_manage_locations is Some
}

/// The employee of an account row: present only when every one of its
/// columns is.
pub open spec fn employee_of(row: AccountInfoQueryRes) -> Option<EmployeeInfo> {
    if has_employee(row) {
        Some(
            EmployeeInfo {
                id: row.employee_id->0,
                surname: row.surname->0,
                name: row.name->0,
                patronim: row.patronim->0,
                location_id: row.location_id->0,
                location_name: row.location_name->0,
                permissions: Permissions::of_flags(
                    row.can_manage_empl->0,
                    row.can_manage_products->0,
                    row.can_manage_categories->0,
                    row.can_sell_products->0,
                    row.can_manage_locations->0,
                ),
            },
        )
    } else {
        None
    }
}

/// The account that a row describes, before a token is issued.
pub open spec fn account_info_of(row: AccountInfoQueryRes) -> AccountInfo {
    AccountInfo { id: row.id, login: row.login, employee: employee_of(row), token: None }
}

impl From<AccountInfoQueryRes> for AccountInfo {
    fn from(value: AccountInfoQueryRes) -> (a: AccountInfo) {
        let ghost row = value;
        let employee = if let (
            Some(id),
            Some(surname),
            Some(name),
            Some(patronim),
            Some(location_id),
            Some(location_name),
            Some(manage_empl),
            Some(manage_products),
            Some(manage_categories),
            Some(sell_products),
            Some(manage_locations),
        ) = (
            value.employee_id,
            value.surname,
            value.name,
            value.patronim,
            value.location_id,
            value.location_name,
            value.can_manage_empl,
            value.can_manage_products,
            value.can_manage_categories,
            value.can_sell_products,
            value.can_manage_locations,
        ) {
            let permissions = Permissions::from_i8(
                manage_empl,
                manage_products,
                manage_categories,
                sell_products,
                manage_locations,
            );
            Some(EmployeeInfo::new(id, surname, name, patronim, location_id, location_name, permissions))
        } else {
            None
        };
        assert(employee == employee_of(row));
        Self::new(value.id, value.login, employee)
    }
}

impl vstd::std_specs::convert::FromSpecImpl<AccountInfoQueryRes> for AccountInfo {
    open spec fn obeys_from_spec() -> bool {
        true
    }

    open spec fn from_spec(value: AccountInfoQueryRes) -> AccountInfo {
        account_info_of(value)
    }
}

/// The answer to a login, from what the lookup of the login's account
/// returned and the password given.
pub open spec fn spec_login(found: Result<Option<AccountInfoQueryRes>, DbErrKind>, password: Seq<char>) -> Result<
    AccountInfo,
    LoginErr,
> {
    match found {
        Err(DbErrKind::RecordNotFound) => Err(LoginErr::NotFound),
        Err(_) => Err(LoginErr::Internal),
        Ok(Some(row)) => if row.password@ != password_hash(password) {
            Err(LoginErr::InvalidPassword)
        } else {
            Ok(account_info_of(row))
        },
        Ok(None) => Err(LoginErr::NotFound),
    }
}

/// Logs in with `password` on the account that the lookup found: the
/// password's hash must be the one stored. The token is issued afterwards.
/// A lookup that finds no row is a fault of the caller.
pub fn login(found: Result<Option<AccountInfoQueryRes>, DbErrKind>, password: &str) -> (r: Result<AccountInfo, LoginErr>)
    requires
        !(found matches Ok(None)),
    ensures
        r == spec_login(found, password@),
{
    match found {
        Err(DbErrKind::RecordNotFound) => Err(LoginErr::NotFound),
        Err(_) => Err(LoginErr::Internal),
        Ok(Some(account)) => {
            let hash = hash_password(password);
            if account.password != hash {
                return Err(LoginErr::InvalidPassword);
            }
            Ok(AccountInfo::from(account))
        },
        Ok(None) => Err(LoginErr::NotFound),
    }
}

/// A password is accepted by the account that registering with it stored:
/// the login answers with the account the row describes.
pub proof fn law_login_accepts_the_registered_password(row: AccountInfoQueryRes, password: Seq<char>)
    requires
        row.password@ == password_hash(password),
    ensures
        spec_login(Ok(Some(row)), password) == Ok::<AccountInfo, LoginErr>(account_info_of(row)),
        account_info_of(row).token is None,
{
}

/// A password whose hash is not the one stored is refused.
pub proof fn law_login_refuses_other_passwords(row: AccountInfoQueryRes, password: Seq<char>)
    requires
        row.password@ != password_hash(password),
    ensures
        spec_login(Ok(Some(row)), password) == Err::<AccountInfo, LoginErr>(LoginErr::InvalidPassword),
{
}

/// An account gets an employee only from a row that has every employee
/// column, and its permissions are exactly the flags above zero.
pub proof fn law_employee_needs_every_column(row: AccountInfoQueryRes, p: Permission)
    ensures
        account_info_of(row).employee is Some <==> has_employee(row),
        has_employee(row) ==> (account_info_of(row).employee->0.permissions.allows(p) <==> match p {
            Permission::ManageEmpl => row.can_manage_empl->0 > 0,
            Permission::ManageProducts => row.can_manage_products->0 > 0,
            Permission::ManageCategories => row.can_manage_categories->0 > 0,
            Permission::SellProducts => row.can_sell_products->0 > 0,
            Permission::ManageLocations => row.can_manage_locations->0 > 0,
        }),
{
}

/// Each field of a logged-in account comes from its own column: the id and
/// login of the account; the employee only when all eleven employee columns
/// are present, with its id, surname, name, patronymic, location and
/// location name from their columns and each permission granted exactly when
/// its own flag is above zero; no token yet.
pub proof fn law_account_fields_come_from_their_columns(row: AccountInfoQueryRes)
    ensures
        account_info_of(row).id == row.id,
        account_info_of(row).login == row.login,
        account_info_of(row).token is None,
        account_info_of(row).employee is Some <==> (row.employee_id is Some && row.surname is Some && row.name is Some
            && row.patronim is Some && row.location_id is Some && row.location_name is Some
            && row.can_manage_empl is Some && row.can_manage_products is Some && row.can_manage_categories is Some
            && row.can_sell_products is Some && row.can_manage_locations is Some),
        account_info_of(row).employee matches Some(e) ==> {
            &&& Some(e.id) == row.employee_id
            &&& Some(e.surname) == row.surname
            &&& Some(e.name) == row.name
            &&& Some(e.patronim) == row.patronim
            &&& Some(e.location_id) == row.location_id
            &&& Some(e.location_name) == row.location_name
            &&& e.permissions.manage_empl == (row.can_manage_empl->0 > 0)
            &&& e.permissions.manage_products == (row.can_manage_products->0 > 0)
            &&& e.permissions.manage_categories == (row.can_manage_categories->0 > 0)
            &&& e.permissions.sell_products == (row.can_sell_products->0 > 0)
            &&& e.permissions.manage_locations == (row.can_manage_locations->0 > 0)
        },
{
}

/// Each permission is read from its own field.
pub proof fn law_each_permission_reads_its_own_field(held: Permissions)
    ensures
        held.allows(Permission::ManageEmpl) == held.manage_empl,
        held.allows(Permission::ManageProducts) == held.manage_products,
        held.allows(Permission::ManageCategories) == held.manage_categories,
        held.allows(Permission::SellProducts) == held.sell_products,
        held.allows(Permission::ManageLocations) == held.manage_locations,
{
}

/// A lookup of the login that found no record answers `NotFound`; any other
/// failed lookup answers `Internal`, whatever the password.
pub proof fn law_failed_lookups_of_a_login(kind: DbErrKind, password: Seq<char>)
    ensures
        kind == DbErrKind::RecordNotFound ==> spec_login(Err(kind), password) == Err::<AccountInfo, LoginErr>(
            LoginErr::NotFound,
        ),
        kind != DbErrKind::RecordNotFound ==> spec_login(Err(kind), password) == Err::<AccountInfo, LoginErr>(
            LoginErr::Internal,
        ),
{
}

/// Passwords need at least six bytes, and what is stored of one is its
/// digest with exactly the letters `a` to `z` turned to `A` to `Z`.
pub proof fn law_stored_password_is_the_uppercased_digest(password: Seq<char>)
    ensures
        MIN_PASSWORD_BYTES == 6,
        password_hash(password).len() == sha256_hex(password).len(),
        forall|i: int|
            0 <= i < sha256_hex(password).len() ==> {
                let c = #[trigger] sha256_hex(password)[i];
                &&& ('a' <= c && c <= 'z') ==> password_hash(password)[i] as int == c as int - 32
                &&& !('a' <= c && c <= 'z') ==> password_hash(password)[i] == c
            },
{
}

} // verus!
