use pharma_lib::commands;
use pharma_lib::queries::empl::{self, EmployeeChange, EmployeeEdit, NewEmployee};
use pharma_lib::queries::locations::{self, LocationChange, LocationEdit};
use pharma_lib::queries::positions::{self, NewPosition, PositionChange, PositionEdit};
use pharma_lib::queries::products::{self, NewProduct, ProductChange, ProductEdit};
use pharma_lib::queries::sessions::Permission;
use pharma_lib::queries::BasicErr;
use sqlx::types::Decimal;

fn dec(cents: i64) -> Decimal {
    Decimal::new(cents, 2)
}

#[test]
fn product_create_keeps_the_given_values() {
    let r = products::create(
        "Aspirin".to_string(),
        Some("500 mg".to_string()),
        Some(dec(1250)),
        Some(Some(dec(100))),
        Some(3),
    );
    assert_eq!(
        r,
        Ok(NewProduct {
            name: "Aspirin".to_string(),
            description: Some("500 mg".to_string()),
            price: dec(1250),
            discount: Some(dec(100)),
            category: Some(3),
        })
    );
    let r = products::create("Gauze".to_string(), None, Some(dec(300)), None, None);
    assert_eq!(
        r,
        Ok(NewProduct { name: "Gauze".to_string(), description: None, price: dec(300), discount: None, category: None })
    );
}

#[test]
fn product_create_refuses_values_without_decimal() {
    assert_eq!(products::create("A".to_string(), None, None, None, None), Err(BasicErr::Invalid));
    assert_eq!(
        products::create("A".to_string(), None, Some(dec(1)), Some(None), None),
        Err(BasicErr::Invalid)
    );
}

#[test]
fn product_edit_writes_given_columns_in_order() {
    let r = products::edit(
        7,
        Some("New".to_string()),
        Some("Desc".to_string()),
        Some(Some(dec(999))),
        Some(Some(Some(dec(50)))),
        Some(4),
    );
    assert_eq!(
        r,
        Ok(ProductEdit {
            id: 7,
            changes: vec![
                ProductChange::Name("New".to_string()),
                ProductChange::Description("Desc".to_string()),
                ProductChange::Price(dec(999)),
                ProductChange::Discount(dec(50)),
                ProductChange::Category(4),
            ],
        })
    );
}

#[test]
fn product_edit_clears_category_and_ignores_no_discount() {
    let r = products::edit(2, None, None, None, Some(None), Some(-1));
    assert_eq!(r, Ok(ProductEdit { id: 2, changes: vec![ProductChange::ClearCategory] }));
    let r = products::edit(2, None, None, None, None, None);
    assert_eq!(r, Ok(ProductEdit { id: 2, changes: vec![] }));
}

#[test]
fn product_edit_refuses_values_without_decimal() {
    assert_eq!(products::edit(1, None, None, Some(None), None, None), Err(BasicErr::Invalid));
    assert_eq!(products::edit(1, None, None, None, Some(Some(None)), None), Err(BasicErr::Invalid));
    assert_eq!(
        products::edit(1, Some("x".to_string()), None, Some(None), Some(Some(None)), Some(2)),
        Err(BasicErr::Invalid)
    );
}

#[test]
fn position_create_stores_flags_as_numbers() {
    let r = positions::create(
        "Clerk".to_string(),
        Some(dec(1500000)),
        2,
        Some(true),
        Some(false),
        None,
        Some(true),
        Some(false),
    );
    assert_eq!(
        r,
        Ok(NewPosition {
            name: "Clerk".to_string(),
            salary: dec(1500000),
            location: 2,
            can_manage_empl: Some(1),
            can_manage_products: Some(0),
            can_manage_categories: None,
            can_sell_products: Some(1),
            can_manage_locations: Some(0),
        })
    );
    assert_eq!(
        positions::create("Clerk".to_string(), None, 2, None, None, None, None, None),
        Err(BasicErr::Invalid)
    );
}

#[test]
fn position_edit_writes_given_columns_in_order() {
    let r = positions::edit(
        5,
        Some("Head".to_string()),
        Some(Some(dec(2000000))),
        Some(3),
        Some(true),
        None,
        Some(false),
        None,
        Some(true),
    );
    assert_eq!(
        r,
        Ok(PositionEdit {
            id: 5,
            changes: vec![
                PositionChange::Name("Head".to_string()),
                PositionChange::Salary(dec(2000000)),
                PositionChange::Location(3),
                PositionChange::Flag(Permission::ManageEmpl, 1),
                PositionChange::Flag(Permission::ManageCategories, 0),
                PositionChange::Flag(Permission::ManageLocations, 1),
            ],
        })
    );
    assert_eq!(
        positions::edit(5, None, Some(None), None, None, None, None, None, None),
        Err(BasicErr::Invalid)
    );
}

#[test]
fn position_commands_never_grant_managing_locations() {
    let r = commands::create_position("Clerk".to_string(), Some(dec(100)), 1, Some(true), None, None, None);
    assert_eq!(r.unwrap().can_manage_locations, Some(0));
    let r = commands::edit_position(9, None, None, None, None, None, None, None).unwrap();
    assert_eq!(r.changes, vec![PositionChange::Flag(Permission::ManageLocations, 0)]);
    assert_eq!(
        commands::edit_position(9, None, Some(None), None, None, None, None, None),
        Err(BasicErr::Invalid)
    );
}

#[test]
fn employee_create_and_bonus() {
    let r = empl::create("Shevchenko".to_string(), "Taras".to_string(), "H.".to_string(), 4, Some(Some(dec(2500))));
    assert_eq!(
        r,
        Ok(NewEmployee {
            surname: "Shevchenko".to_string(),
            name: "Taras".to_string(),
            patronim: "H.".to_string(),
            position: 4,
            salary_bonus: Some(dec(2500)),
        })
    );
    let r = empl::create("S".to_string(), "T".to_string(), "H".to_string(), 4, None);
    assert_eq!(r.unwrap().salary_bonus, None);
    assert_eq!(
        empl::create("S".to_string(), "T".to_string(), "H".to_string(), 4, Some(None)),
        Err(BasicErr::Invalid)
    );
}

#[test]
fn employee_edit_writes_given_columns_in_order() {
    let e = empl::edit(3, None, Some("Ivan".to_string()), None, Some(8), Some(125.5f64));
    assert_eq!(
        e,
        EmployeeEdit {
            id: 3,
            changes: vec![
                EmployeeChange::Name("Ivan".to_string()),
                EmployeeChange::Position(8),
                EmployeeChange::SalaryBonus(125.5f64),
            ],
        }
    );
    let e = empl::edit::<f64>(3, None, None, None, None, None);
    assert!(e.changes.is_empty());
}

#[test]
fn location_edit_writes_given_columns_in_order() {
    assert_eq!(
        locations::edit(1, Some("Main".to_string()), Some("Shevchenka 1".to_string())),
        LocationEdit {
            id: 1,
            changes: vec![
                LocationChange::Name("Main".to_string()),
                LocationChange::Address("Shevchenka 1".to_string()),
            ],
        }
    );
    assert_eq!(
        locations::edit(1, None, Some("Franka 2".to_string())),
        LocationEdit { id: 1, changes: vec![LocationChange::Address("Franka 2".to_string())] }
    );
}
