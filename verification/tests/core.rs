use pharma_lib::commands::{self, Command};
use pharma_lib::config::Config;
use pharma_lib::queries::accounts::Permissions;
use pharma_lib::queries::stock::{self, BuyAction, BuyAmount, BuyEvent, BuyState, JoinedStockQueryRes};
use pharma_lib::queries::{self, BasicErr, DbErrKind};
use sqlx::types::Decimal;

#[test]
fn db_uri_joins_the_settings() {
    let c = Config {
        db_user: "root".to_string(),
        db_pass: "pw".to_string(),
        db_host: "localhost".to_string(),
        db_port: "3306".to_string(),
        db_name: "pharmacy".to_string(),
    };
    assert_eq!(c.db_uri(), "mysql://root:pw@localhost:3306/pharmacy");
}

#[test]
fn greeting() {
    assert_eq!(commands::greet("Taras"), "Hello, Taras! You've been greeted from Rust!");
    assert_eq!(commands::greet(""), "Hello, ! You've been greeted from Rust!");
}

#[test]
fn database_errors_map_to_basic_errors() {
    assert_eq!(BasicErr::from(DbErrKind::RecordNotInserted), BasicErr::Exists);
    assert_eq!(BasicErr::from(DbErrKind::RecordNotUpdated), BasicErr::NotFound);
    assert_eq!(BasicErr::from(DbErrKind::RecordNotFound), BasicErr::NotFound);
    assert_eq!(BasicErr::from(DbErrKind::Other), BasicErr::Internal);
}

#[test]
fn lookups_by_id() {
    assert_eq!(queries::found(Ok(Some(5))), Ok(5));
    assert_eq!(queries::found::<i32>(Err(DbErrKind::RecordNotFound)), Err(BasicErr::NotFound));
    assert_eq!(queries::found::<i32>(Err(DbErrKind::Other)), Err(BasicErr::Internal));
    assert_eq!(queries::range_or(Ok(Some((1, 9))), (0, 0)), (1, 9));
    assert_eq!(queries::range_or(Err(DbErrKind::Other), (0, 0)), (0, 0));
}

#[test]
fn authorization_of_commands() {
    let none = Permissions::from_i8(0, 0, 0, 0, 0);
    let empl = Permissions::new(true, false, false, false, false);
    let locations = Permissions::new(false, false, false, false, true);
    let seller = Permissions::new(false, false, false, true, false);
    assert_eq!(commands::authorize(Command::Products, &none), Ok(()));
    assert_eq!(commands::authorize(Command::SaveStock, &none), Ok(()));
    assert_eq!(commands::authorize(Command::CreateProduct, &none), Err(BasicErr::NotAuthorized));
    assert_eq!(commands::authorize(Command::Positions, &empl), Ok(()));
    assert_eq!(commands::authorize(Command::Positions, &locations), Ok(()));
    assert_eq!(commands::authorize(Command::Positions, &seller), Err(BasicErr::NotAuthorized));
    assert_eq!(commands::authorize(Command::CreatePosition, &empl), Err(BasicErr::NotAuthorized));
    assert_eq!(commands::authorize(Command::CreatePosition, &locations), Ok(()));
    assert_eq!(commands::authorize(Command::Buy, &seller), Ok(()));
    assert_eq!(commands::authorize(Command::Buy, &empl), Err(BasicErr::NotAuthorized));
    assert_eq!(commands::authorize(Command::Register, &empl), Ok(()));
    assert_eq!(
        commands::required_permissions(Command::EmplAmount),
        vec![
            pharma_lib::queries::sessions::Permission::ManageLocations,
            pharma_lib::queries::sessions::Permission::ManageEmpl,
        ]
    );
    assert!(commands::required_permissions(Command::Exit).is_empty());
}

fn stock_row(amount: i32) -> JoinedStockQueryRes {
    JoinedStockQueryRes {
        id: amount,
        location: 1,
        product: 2,
        amount,
        name: "Aspirin".to_string(),
        description: None,
        price: Decimal::new(1000, 2),
        discount: None,
        category: Some("Pain".to_string()),
        final_price: Decimal::new(1000, 2),
    }
}

#[test]
fn visible_amounts() {
    assert_eq!(stock::visible_amount(17, true), 17);
    assert_eq!(stock::visible_amount(17, false), 1);
    assert_eq!(stock::visible_amount(1, false), 1);
    assert_eq!(stock::visible_amount(0, false), 0);
    assert_eq!(stock::visible_amount(-4, false), 0);
    assert_eq!(stock::visible_amount(-4, true), -4);
    let once = stock::visible_amount(17, false);
    assert_eq!(stock::visible_amount(once, false), once);
}

#[test]
fn masking_keeps_rows_and_hides_amounts() {
    let mut rows = vec![stock_row(5), stock_row(0), stock_row(-2), stock_row(1)];
    stock::mask_amounts(&mut rows, false);
    let amounts: Vec<i32> = rows.iter().map(|r| r.amount).collect();
    assert_eq!(amounts, vec![1, 0, 0, 1]);
    let ids: Vec<i32> = rows.iter().map(|r| r.id).collect();
    assert_eq!(ids, vec![5, 0, -2, 1]);
    let mut rows = vec![stock_row(5), stock_row(0)];
    stock::mask_amounts(&mut rows, true);
    assert_eq!(rows, vec![stock_row(5), stock_row(0)]);
}

#[test]
fn amount_lookup() {
    assert_eq!(stock::amount_access(&None), Err(BasicErr::NotAuthorized));
    assert_eq!(stock::amount_access(&Some("t".to_string())), Ok(()));
    assert_eq!(stock::get_amount(Ok(Some(12))), Ok(12));
    assert_eq!(stock::get_amount(Ok(None)), Ok(0));
    assert_eq!(stock::get_amount(Err(DbErrKind::Other)), Err(BasicErr::Internal));
}

/// Drives the buying of `order` with the amounts `held` and the given
/// failures, and returns every action issued.
fn drive(order: &Vec<BuyAmount>, held: &[i32], read_error: Option<usize>, update_error: Option<usize>) -> Vec<BuyAction> {
    let (mut state, mut action) = stock::buy_begin(order);
    let mut trace = vec![action];
    loop {
        let event = match (state, action) {
            (BuyState::Reading(i), BuyAction::ReadAmount(_)) => {
                if read_error == Some(i) {
                    BuyEvent::AmountRead(Err(BasicErr::Internal))
                } else {
                    BuyEvent::AmountRead(Ok(held[i]))
                }
            }
            (BuyState::Updating(i), BuyAction::Decrement(_)) => {
                if update_error == Some(i) {
                    BuyEvent::Decremented(Err(BasicErr::NotFound))
                } else {
                    BuyEvent::Decremented(Ok(()))
                }
            }
            _ => return trace,
        };
        let (s, a) = stock::buy_step(order, state, event);
        state = s;
        action = a;
        trace.push(action);
    }
}

fn order() -> Vec<BuyAmount> {
    vec![BuyAmount { id: 10, amount: 2 }, BuyAmount { id: 20, amount: 1 }, BuyAmount { id: 30, amount: 5 }]
}

#[test]
fn buying_with_enough_stock_commits() {
    let trace = drive(&order(), &[2, 7, 5], None, None);
    assert_eq!(
        trace,
        vec![
            BuyAction::ReadAmount(10),
            BuyAction::Decrement(10),
            BuyAction::ReadAmount(20),
            BuyAction::Decrement(20),
            BuyAction::ReadAmount(30),
            BuyAction::Decrement(30),
            BuyAction::Commit,
        ]
    );
}

#[test]
fn buying_stops_at_the_first_shortage() {
    let trace = drive(&order(), &[2, 0, 1], None, None);
    assert_eq!(
        trace,
        vec![
            BuyAction::ReadAmount(10),
            BuyAction::Decrement(10),
            BuyAction::ReadAmount(20),
            BuyAction::Rollback(BasicErr::Invalid),
        ]
    );
}

#[test]
fn buying_an_empty_order_commits() {
    assert_eq!(drive(&vec![], &[], None, None), vec![BuyAction::Commit]);
}

#[test]
fn buying_with_failing_database() {
    let trace = drive(&order(), &[9, 9, 9], Some(1), None);
    assert_eq!(trace.last(), Some(&BuyAction::Fail(BasicErr::Internal)));
    assert_eq!(trace.len(), 4);
    let trace = drive(&order(), &[9, 9, 9], None, Some(0));
    assert_eq!(trace, vec![BuyAction::ReadAmount(10), BuyAction::Decrement(10), BuyAction::Rollback(BasicErr::NotFound)]);
}

#[test]
fn unprivileged_callers_see_only_availability() {
    let mut first = vec![stock_row(5), stock_row(0), stock_row(-3)];
    let mut second = vec![stock_row(5), stock_row(0), stock_row(-3)];
    second[0].amount = 1;
    second[1].amount = -7;
    second[2].amount = 0;
    stock::mask_amounts(&mut first, false);
    stock::mask_amounts(&mut second, false);
    assert_eq!(first, second);
}

#[test]
fn position_edit_with_a_decimal_salary_succeeds() {
    let r = pharma_lib::queries::positions::edit(4, None, Some(Some(Decimal::new(100, 0))), None, None, None, None, None, None);
    assert!(r.is_ok());
    let r = commands::edit_position(4, None, Some(Some(Decimal::new(100, 0))), None, None, None, None, None);
    assert_eq!(r.unwrap().changes.len(), 2);
}
