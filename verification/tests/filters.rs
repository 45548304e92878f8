use pharma_lib::filter::{Column, Filter, Junction, Predicate};
use pharma_lib::queries::{categories, empl, locations, positions, products, stock};

fn all_of(parts: Vec<Predicate>) -> Filter {
    Filter { junction: Junction::All, parts }
}

fn any_of(parts: Vec<Predicate>) -> Filter {
    Filter { junction: Junction::Any, parts }
}

#[test]
fn name_filters_search_their_column() {
    assert_eq!(
        products::name_cond(Some("aspirin".to_string())),
        all_of(vec![Predicate::Contains(Column::ProductName, "aspirin".to_string())])
    );
    assert_eq!(
        categories::name_cond(Some("pain".to_string())),
        all_of(vec![Predicate::Contains(Column::CategoryName, "pain".to_string())])
    );
    assert_eq!(
        positions::name_cond(Some("clerk".to_string())),
        all_of(vec![Predicate::Contains(Column::PositionName, "clerk".to_string())])
    );
    assert_eq!(
        empl::name_cond(Some("Olha".to_string())),
        all_of(vec![Predicate::Contains(Column::EmployeeName, "Olha".to_string())])
    );
}

#[test]
fn name_filters_without_text_pass_every_row() {
    assert_eq!(products::name_cond(None), all_of(vec![]));
    assert_eq!(categories::name_cond(None), all_of(vec![]));
    assert_eq!(positions::name_cond(None), all_of(vec![]));
    assert_eq!(empl::name_cond(None), all_of(vec![]));
    assert_eq!(locations::name_cond(None), all_of(vec![]));
}

#[test]
fn location_search_looks_at_name_and_address() {
    assert_eq!(
        locations::name_cond(Some("Lviv".to_string())),
        any_of(vec![
            Predicate::Contains(Column::LocationName, "Lviv".to_string()),
            Predicate::Contains(Column::LocationAddress, "Lviv".to_string()),
        ])
    );
}

#[test]
fn category_selection_with_uncategorized() {
    assert_eq!(
        products::category_cond(Some(vec![3, -1, 5, -1])),
        any_of(vec![
            Predicate::IsNull(Column::ProductCategory),
            Predicate::IsIn(Column::ProductCategory, vec![3, 5]),
        ])
    );
}

#[test]
fn category_selection_without_uncategorized() {
    assert_eq!(
        products::category_cond(Some(vec![7, 2])),
        any_of(vec![Predicate::IsIn(Column::ProductCategory, vec![7, 2])])
    );
}

#[test]
fn category_selection_edge_cases() {
    // No selection at all: no product passes.
    assert_eq!(products::category_cond(None), any_of(vec![]));
    // An empty selection keeps an empty IN list.
    assert_eq!(
        products::category_cond(Some(vec![])),
        any_of(vec![Predicate::IsIn(Column::ProductCategory, vec![])])
    );
    // Only "no category".
    assert_eq!(
        products::category_cond(Some(vec![-1])),
        any_of(vec![
            Predicate::IsNull(Column::ProductCategory),
            Predicate::IsIn(Column::ProductCategory, vec![]),
        ])
    );
}

#[test]
fn single_price_is_widened_by_one() {
    assert_eq!(
        products::price_cond(Some(10), Some(10)),
        all_of(vec![
            Predicate::AtLeast(Column::ProductFinalPrice, 9),
            Predicate::AtMost(Column::ProductFinalPrice, 11),
        ])
    );
}

#[test]
fn price_bounds_are_kept() {
    assert_eq!(
        products::price_cond(Some(5), Some(20)),
        all_of(vec![
            Predicate::AtLeast(Column::ProductFinalPrice, 5),
            Predicate::AtMost(Column::ProductFinalPrice, 20),
        ])
    );
    assert_eq!(
        products::price_cond(Some(5), None),
        all_of(vec![Predicate::AtLeast(Column::ProductFinalPrice, 5)])
    );
    assert_eq!(
        products::price_cond(None, Some(7)),
        all_of(vec![Predicate::AtMost(Column::ProductFinalPrice, 7)])
    );
    assert_eq!(products::price_cond(None, None), all_of(vec![]));
}

#[test]
fn single_salary_is_widened_by_one() {
    assert_eq!(
        positions::salary_cond(Some(15000), Some(15000)),
        all_of(vec![
            Predicate::AtLeast(Column::PositionSalary, 14999),
            Predicate::AtMost(Column::PositionSalary, 15001),
        ])
    );
    assert_eq!(
        positions::salary_cond(Some(1000), Some(2000)),
        all_of(vec![
            Predicate::AtLeast(Column::PositionSalary, 1000),
            Predicate::AtMost(Column::PositionSalary, 2000),
        ])
    );
    assert_eq!(positions::salary_cond(None, None), all_of(vec![]));
}

#[test]
fn location_lists_admit_listed_locations() {
    assert_eq!(
        stock::location_cond(Some(vec![1, 4])),
        any_of(vec![
            Predicate::Equals(Column::StockLocation, 1),
            Predicate::Equals(Column::StockLocation, 4),
        ])
    );
    assert_eq!(
        positions::location_cond(Some(vec![2])),
        any_of(vec![Predicate::Equals(Column::PositionLocation, 2)])
    );
    assert_eq!(stock::location_cond(None), any_of(vec![]));
    assert_eq!(positions::location_cond(Some(vec![])), any_of(vec![]));
}
