//! The commands that the front end invokes: which permissions each one asks
//! of the caller's session, and the parts of them that compute.

use vstd::prelude::*;
use sqlx::types::Decimal;
use crate::queries::BasicErr;
use crate::queries::accounts::Permissions;
use crate::queries::positions::{self, NewPosition, PositionEdit};
use crate::queries::sessions::Permission;

verus! {

/// The commands of the front end.
#[derive(Clone, Copy, Debug, PartialEq, Eq, Structural)]
pub enum Command {
    Greet,
    Login,
    Register,
    Products,
    Categories,
    ProductsPriceRange,
    Stock,
    Stocks,
    Locations,
    CreateCategory,
    EditCategory,
    DeleteCategory,
    Category,
    CreateProduct,
    EditProduct,
    DeleteProduct,
    Product,
    SaveStock,
    Location,
    CreateLocation,
    EditLocation,
    DeleteLocation,
    Positions,
    Position,
    PositionsSalaryRange,
    CreatePosition,
    EditPosition,
    DeletePosition,
    EmplAmount,
    Employees,
    Employee,
    CreateEmpl,
    EditEmpl,
    DeleteEmpl,
    Buy,
    Exit,
}

/// The permissions of which the caller's session must hold one, in the order
/// they are checked; a command without any is open to every caller.
pub open spec fn spec_required(cmd: Command) -> Seq<Permission> {
    match cmd {
        Command::Register => seq![Permission::ManageEmpl],
        Command::CreateCategory | Command::EditCategory | Command::DeleteCategory => seq![
            Permission::ManageCategories,
        ],
        Command::CreateProduct | Command::EditProduct | Command::DeleteProduct => seq![
            Permission::ManageProducts,
        ],
        Command::CreateLocation | Command::EditLocation | Command::DeleteLocation => seq![
            Permission::ManageLocations,
        ],
        Command::Positions | Command::Position | Command::PositionsSalaryRange | Command::EmplAmount => seq![
            Permission::ManageLocations,
            Permission::ManageEmpl,
        ],
        Command::CreatePosition | Command::EditPosition | Command::DeletePosition => seq![
            Permission::ManageLocations,
        ],
        Command::Employees | Command::Employee | Command::CreateEmpl | Command::EditEmpl
        | Command::DeleteEmpl => seq![Permission::ManageEmpl],
        Command::Buy => seq![Permission::SellProducts],
        _ => Seq::empty(),
    }
}

/// The permissions to look up for a command, in the order they are checked.
pub fn required_permissions(cmd: Command) -> (ps: Vec<Permission>)
    ensures
        ps@ == spec_required(cmd),
{
    let ps = match cmd {
        Command::Register => vec![Permission::ManageEmpl],
        Command::CreateCategory | Command::EditCategory | Command::DeleteCategory => vec![
            Permission::ManageCategories,
        ],
        Command::CreateProduct | Command::EditProduct | Command::DeleteProduct => vec![
            Permission::ManageProducts,
        ],
        Command::CreateLocation | Command::EditLocation | Command::DeleteLocation => vec![
            Permission::ManageLocations,
        ],
        Command::Positions | Command::Position | Command::PositionsSalaryRange | Command::EmplAmount => vec![
            Permission::ManageLocations,
            Permission::ManageEmpl,
        ],
        Command::CreatePosition | Command::EditPosition | Command::DeletePosition => vec![
            Permission::ManageLocations,
        ],
        Command::Employees | Command::Employee | Command::CreateEmpl | Command::EditEmpl
        | Command::DeleteEmpl => vec![Permission::ManageEmpl],
        Command::Buy => vec![Permission::SellProducts],
        _ => Vec::new(),
    };
    assert(ps@ =~= spec_required(cmd));
    ps
}

/// Whether a caller holding `held` may run `cmd`.
pub open spec fn permitted(cmd: Command, held: Permissions) -> bool {
    spec_required(cmd).len() == 0 || exists|i: int|
        0 <= i < spec_required(cmd).len() && held.allows(#[trigger] spec_required(cmd)[i])
}

/// Lets a caller holding `held` run `cmd`, or refuses it with
/// `NotAuthorized`.
pub fn authorize(cmd: Command, held: &Permissions) -> (r: Result<(), BasicErr>)
    ensures
        r is Ok <==> permitted(cmd, *held),
        r is Err ==> r == Err::<(), BasicErr>(BasicErr::NotAuthorized),
{
    let required = required_permissions(cmd);
    if required.len() == 0 {
        return Ok(());
    }
    let n = required.len();
    for i in 0..n
        invariant
            n == required@.len(),
            required@ == spec_required(cmd),
            forall|j: int| 0 <= j < i ==> !held.allows(#[trigger] required@[j]),
    {
        if held.has(required[i]) {
            return Ok(());
        }
    }
    Err(BasicErr::NotAuthorized)
}

/// What every command asks: creating, editing or deleting categories,
/// products, locations, positions or employees needs exactly the matching
/// management permission (positions need managing locations), registering
/// an account needs managing employees, the positions, their salary range
/// and the head count are open to managers of locations and of employees
/// alike, buying needs the selling permission, and every other command
/// (looking at the catalogue, the stock and the locations, saving stock,
/// logging in and out) is open to everyone.
pub proof fn law_who_may_run_what(held: Permissions)
    ensures
        permitted(Command::Register, held) <==> held.manage_empl,
        permitted(Command::CreateCategory, held) <==> held.manage_categories,
        permitted(Command::EditCategory, held) <==> held.manage_categories,
        permitted(Command::DeleteCategory, held) <==> held.manage_categories,
        permitted(Command::CreateProduct, held) <==> held.manage_products,
        permitted(Command::EditProduct, held) <==> held.manage_products,
        permitted(Command::DeleteProduct, held) <==> held.manage_products,
        permitted(Command::CreateLocation, held) <==> held.manage_locations,
        permitted(Command::EditLocation, held) <==> held.manage_locations,
        permitted(Command::DeleteLocation, held) <==> held.manage_locations,
        permitted(Command::CreatePosition, held) <==> held.manage_locations,
        permitted(Command::EditPosition, held) <==> held.manage_locations,
        permitted(Command::DeletePosition, held) <==> held.manage_locations,
        permitted(Command::Employees, held) <==> held.manage_empl,
        permitted(Command::Employee, held) <==> held.manage_empl,
        permitted(Command::CreateEmpl, held) <==> held.manage_empl,
        permitted(Command::EditEmpl, held) <==> held.manage_empl,
        permitted(Command::DeleteEmpl, held) <==> held.manage_empl,
        permitted(Command::Buy, held) <==> held.sell_products,
        permitted(Command::Positions, held) <==> held.manage_locations || held.manage_empl,
        permitted(Command::Position, held) <==> held.manage_locations || held.manage_empl,
        permitted(Command::PositionsSalaryRange, held) <==> held.manage_locations || held.manage_empl,
        permitted(Command::EmplAmount, held) <==> held.manage_locations || held.manage_empl,
        permitted(Command::Greet, held),
        permitted(Command::Login, held),
        permitted(Command::Products, held),
        permitted(Command::Categories, held),
        permitted(Command::ProductsPriceRange, held),
        permitted(Command::Stock, held),
        permitted(Command::Stocks, held),
        permitted(Command::Locations, held),
        permitted(Command::Category, held),
        permitted(Command::Product, held),
        permitted(Command::SaveStock, held),
        permitted(Command::Location, held),
        permitted(Command::Exit, held),
{
    assert(spec_required(Command::Register)[0] == Permission::ManageEmpl);
    assert(spec_required(Command::CreateCategory)[0] == Permission::ManageCategories);
    assert(spec_required(Command::EditCategory)[0] == Permission::ManageCategories);
    assert(spec_required(Command::DeleteCategory)[0] == Permission::ManageCategories);
    assert(spec_required(Command::CreateProduct)[0] == Permission::ManageProducts);
    assert(spec_required(Command::EditProduct)[0] == Permission::ManageProducts);
    assert(spec_required(Command::DeleteProduct)[0] == Permission::ManageProducts);
    assert(spec_required(Command::CreateLocation)[0] == Permission::ManageLocations);
    assert(spec_required(Command::EditLocation)[0] == Permission::ManageLocations);
    assert(spec_required(Command::DeleteLocation)[0] == Permission::ManageLocations);
    assert(spec_required(Command::CreatePosition)[0] == Permission::ManageLocations);
    assert(spec_required(Command::EditPosition)[0] == Permission::ManageLocations);
    assert(spec_required(Command::DeletePosition)[0] == Permission::ManageLocations);
    assert(spec_required(Command::Employees)[0] == Permission::ManageEmpl);
    assert(spec_required(Command::Employee)[0] == Permission::ManageEmpl);
    assert(spec_required(Command::CreateEmpl)[0] == Permission::ManageEmpl);
    assert(spec_required(Command::EditEmpl)[0] == Permission::ManageEmpl);
    assert(spec_required(Command::DeleteEmpl)[0] == Permission::ManageEmpl);
    assert(spec_required(Command::Buy)[0] == Permission::SellProducts);
    assert(spec_required(Command::Positions)[0] == Permission::ManageLocations);
    assert(spec_required(Command::Positions)[1] == Permission::ManageEmpl);
    assert(spec_required(Command::Position)[0] == Permission::ManageLocations);
    assert(spec_required(Command::Position)[1] == Permission::ManageEmpl);
    assert(spec_required(Command::PositionsSalaryRange)[0] == Permission::ManageLocations);
    assert(spec_required(Command::PositionsSalaryRange)[1] == Permission::ManageEmpl);
    assert(spec_required(Command::EmplAmount)[0] == Permission::ManageLocations);
    assert(spec_required(Command::EmplAmount)[1] == Permission::ManageEmpl);
}

/// The commands open to either kind of manager look up managing locations
/// first, then managing employees; every other guarded command looks up one
/// permission.
pub proof fn law_order_of_lookups(cmd: Command)
    ensures
        (cmd == Command::Positions || cmd == Command::Position || cmd == Command::PositionsSalaryRange
            || cmd == Command::EmplAmount) ==> spec_required(cmd) == seq![
            Permission::ManageLocations,
            Permission::ManageEmpl,
        ],
        !(cmd == Command::Positions || cmd == Command::Position || cmd == Command::PositionsSalaryRange
            || cmd == Command::EmplAmount) ==> spec_required(cmd).len() <= 1,
{
}

/// A caller with no permission at all may run only the open commands.
pub proof fn law_no_permission_only_open_commands(cmd: Command)
    ensures
        permitted(cmd, Permissions::of_flags(0, 0, 0, 0, 0)) <==> spec_required(cmd).len() == 0,
{
}

/// The greeting of the front end's demo page.
pub fn greet(name: &str) -> (greeting: String)
    ensures
        greeting@ == "Hello, "@ + name@ + "! You've been greeted from Rust!"@,
{
    let mut greeting = String::from_str("Hello, ");
    greeting.append(name);
    greeting.append("! You've been greeted from Rust!");
    greeting
}

/// The greeting is the name framed by "Hello, " and "! You've been greeted
/// from Rust!".
pub proof fn law_greeting_frames_the_name(name: Seq<char>)
    ensures
        ("Hello, "@ + name + "! You've been greeted from Rust!"@).subrange(7, 7 + name.len() as int) == name,
        ("Hello, "@ + name + "! You've been greeted from Rust!"@).len() == name.len() + 39,
        ("Hello, "@ + name + "! You've been greeted from Rust!"@).subrange(0, 7) == seq!['H', 'e', 'l', 'l', 'o', ',', ' '],
        ("Hello, "@ + name + "! You've been greeted from Rust!"@).subrange(7 + name.len() as int, 39 + name.len() as int)
            == seq!['!', ' ', 'Y', 'o', 'u', '\'', 'v', 'e', ' ', 'b', 'e', 'e', 'n', ' ', 'g', 'r', 'e', 'e', 't', 'e', 'd', ' ', 'f', 'r', 'o', 'm', ' ', 'R', 'u', 's', 't', '!'],
{
    reveal_strlit("Hello, ");
    reveal_strlit("! You've been greeted from Rust!");
    let g = "Hello, "@ + name + "! You've been greeted from Rust!"@;
    assert(g.subrange(7, 7 + name.len() as int) =~= name);
    assert(g.subrange(0, 7) =~= seq!['H', 'e', 'l', 'l', 'o', ',', ' ']);
    assert(g.subrange(7 + name.len() as int, 39 + name.len() as int) =~= seq!['!', ' ', 'Y', 'o', 'u', '\'', 'v', 'e', ' ', 'b', 'e', 'e', 'n', ' ', 'g', 'r', 'e', 'e', 't', 'e', 'd', ' ', 'f', 'r', 'o', 'm', ' ', 'R', 'u', 's', 't', '!']);
}

/// The record that the command creating a position inserts: a position
/// created this way never grants managing locations.
pub fn create_position(
    name: String,
    salary: Option<Decimal>,
    location: i32,
    can_manage_empl: Option<bool>,
    can_manage_products: Option<bool>,
    can_manage_categories: Option<bool>,
    can_sell_products: Option<bool>,
) -> (r: Result<NewPosition, BasicErr>)
    ensures
        r == positions::spec_create(
            name,
            salary,
            location,
            can_manage_empl,
            can_manage_products,
            can_manage_categories,
            can_sell_products,
            Some(false),
        ),
        r matches Ok(p) ==> p.can_manage_locations == Some(0i8),
{
    positions::create(
        name,
        salary,
        location,
        can_manage_empl,
        can_manage_products,
        can_manage_categories,
        can_sell_products,
        Some(false),
    )
}

/// The assignments that the command editing a position writes: such an edit
/// always withdraws managing locations.
pub fn edit_position(
    id: i32,
    name: Option<String>,
    salary: Option<Option<Decimal>>,
    location: Option<i32>,
    can_manage_empl: Option<bool>,
    can_manage_products: Option<bool>,
    can_manage_categories: Option<bool>,
    can_sell_products: Option<bool>,
) -> (r: Result<PositionEdit, BasicErr>)
    ensures
        salary == Some(None::<Decimal>) <==> r == Err::<PositionEdit, BasicErr>(BasicErr::Invalid),
        salary != Some(None::<Decimal>) ==> r is Ok,
        r matches Ok(e) ==> e.id == id && e.changes@ == positions::position_changes(
            name,
            crate::queries::products::converted(salary),
            location,
            can_manage_empl,
            can_manage_products,
            can_manage_categories,
            can_sell_products,
            Some(false),
        ),
        r matches Ok(e) ==> e.changes@.last() == positions::PositionChange::Flag(Permission::ManageLocations, 0i8),
{
    positions::edit(
        id,
        name,
        salary,
        location,
        can_manage_empl,
        can_manage_products,
        can_manage_categories,
        can_sell_products,
        Some(false),
    )
}

} // verus!
