//! Positions: their list filters, and the records that creating or editing
//! one writes.

use vstd::prelude::*;
use sqlx::types::Decimal;
use crate::filter::{
    ids_of, one_of, one_of_filter, range_filter, text_filter, text_of, text_search, Column, Filter,
    Junction, Predicate,
};
use crate::queries::BasicErr;
use crate::queries::products::converted;
use crate::queries::sessions::Permission;

verus! {

/// Search by position name; no filter without a name.
pub fn name_cond(name: Option<String>) -> (f: Filter)
    ensures
        f@ == text_filter(Column::PositionName, text_of(name)),
{
    text_search(Column::PositionName, name)
}

/// A salary bound as a mathematical integer.
pub open spec fn bound32(b: Option<i32>) -> Option<int> {
    match b {
        Some(v) => Some(v as int),
        None => None,
    }
}

/// Builds the filter of a salary range. A single salary (both bounds equal)
/// is widened by one on each side.
pub fn salary_cond(start: Option<i32>, end: Option<i32>) -> (f: Filter)
    requires
        start is Some && start == end ==> i32::MIN < start->0 < i32::MAX,
    ensures
        f@ == range_filter(Column::PositionSalary, bound32(start), bound32(end)),
{
    let mut lo = start;
    let mut hi = end;
    if lo.is_some() && lo == hi {
        lo = Some(start.unwrap() - 1);
        hi = Some(end.unwrap() + 1);
    }
    let mut cond = Filter::new(Junction::All);
    if let Some(v) = lo {
        cond.add(Predicate::AtLeast(Column::PositionSalary, v as i64));
    }
    if let Some(v) = hi {
        cond.add(Predicate::AtMost(Column::PositionSalary, v as i64));
    }
    assert(cond@.atoms =~= range_filter(Column::PositionSalary, bound32(start), bound32(end)).atoms);
    cond
}

/// Keeps positions at one of the given locations; without a list no
/// position passes.
pub fn location_cond(locations: Option<Vec<i32>>) -> (f: Filter)
    ensures
        f@ == one_of_filter(Column::PositionLocation, ids_of(locations)),
{
    one_of(Column::PositionLocation, locations)
}

/// How a permission flag is stored: 1 for granted, 0 for not.
pub open spec fn stored_flag(granted: bool) -> i8 {
    if granted {
        1
    } else {
        0
    }
}

fn flag(granted: bool) -> (v: i8)
    ensures
        v == stored_flag(granted),
{
    if granted {
        1
    } else {
        0
    }
}

fn opt_flag(granted: Option<bool>) -> (v: Option<i8>)
    ensures
        v == stored_flags(granted),
{
    match granted {
        Some(g) => Some(flag(g)),
        None => None,
    }
}

/// A requested permission flag as stored, if one was requested.
pub open spec fn stored_flags(granted: Option<bool>) -> Option<i8> {
    match granted {
        Some(g) => Some(stored_flag(g)),
        None => None,
    }
}

/// A position record to insert; a flag left `None` takes the database's
/// default.
#[derive(Debug, PartialEq)]
pub struct NewPosition {
    pub name: String,
    pub salary: Decimal,
    pub location: i32,
    pub can_manage_empl: Option<i8>,
    pub can_manage_products: Option<i8>,
    pub can_manage_categories: Option<i8>,
    pub can_sell_products: Option<i8>,
    pub can_manage_locations: Option<i8>,
}

/// The record that creating a position with these values inserts, or the
/// refusal of a salary without a decimal value.
pub open spec fn spec_create(
    name: String,
    salary: Option<Decimal>,
    location: i32,
    can_manage_empl: Option<bool>,
    can_manage_products: Option<bool>,
    can_manage_categories: Option<bool>,
    can_sell_products: Option<bool>,
    can_manage_locations: Option<bool>,
) -> Result<NewPosition, BasicErr> {
    match salary {
        None => Err(BasicErr::Invalid),
        Some(s) => Ok(
            NewPosition {
                name,
                salary: s,
                location,
                can_manage_empl: stored_flags(can_manage_empl),
                can_manage_products: stored_flags(can_manage_products),
                can_manage_categories: stored_flags(can_manage_categories),
                can_sell_products: stored_flags(can_sell_products),
                can_manage_locations: stored_flags(can_manage_locations),
            },
        ),
    }
}

/// The record that creating a position inserts. `salary` is the requested
/// salary as a decimal, `None` where it has none, which is refused with
/// `Invalid`. Each requested flag is stored as 1 or 0.
pub fn create(
    name: String,
    salary: Option<Decimal>,
    location: i32,
    can_manage_empl: Option<bool>,
    can_manage_products: Option<bool>,
    can_manage_categories: Option<bool>,
    can_sell_products: Option<bool>,
    can_manage_locations: Option<bool>,
) -> (r: Result<NewPosition, BasicErr>)
    ensures
        r == spec_create(
            name,
            salary,
            location,
            can_manage_empl,
            can_manage_products,
            can_manage_categories,
            can_sell_products,
            can_manage_locations,
        ),
{
    let salary = match salary {
        Some(s) => s,
        None => return Err(BasicErr::Invalid),
    };
    Ok(
        NewPosition {
            name,
            salary,
            location,
            can_manage_empl: opt_flag(can_manage_empl),
            can_manage_products: opt_flag(can_manage_products),
            can_manage_categories: opt_flag(can_manage_categories),
            can_sell_products: opt_flag(can_sell_products),
            can_manage_locations: opt_flag(can_manage_locations),
        },
    )
}

/// One column assignment of a position edit.
#[derive(Debug, PartialEq)]
pub enum PositionChange {
    Name(String),
    Salary(Decimal),
    Location(i32),
    /// The stored flag of a permission.
    Flag(Permission, i8),
}

/// The assignments of a position edit, in the order they are written.
#[derive(Debug, PartialEq)]
pub struct PositionEdit {
    pub id: i32,
    pub changes: Vec<PositionChange>,
}

/// The assignment of a permission flag, if one was requested.
pub open spec fn flag_change(p: Permission, granted: Option<bool>) -> Seq<PositionChange> {
    match granted {
        Some(g) => seq![PositionChange::Flag(p, stored_flag(g))],
        None => Seq::empty(),
    }
}

/// The assignments that an edit with these (converted) values writes: each
/// given value in the order name, salary, location, then the flags of
/// managing employees, managing products, managing categories, selling and
/// managing locations.
pub open spec fn position_changes(
    name: Option<String>,
    salary: Option<Decimal>,
    location: Option<i32>,
    can_manage_empl: Option<bool>,
    can_manage_products: Option<bool>,
    can_manage_categories: Option<bool>,
    can_sell_products: Option<bool>,
    can_manage_locations: Option<bool>,
) -> Seq<PositionChange> {
    (match name {
        Some(v) => seq![PositionChange::Name(v)],
        None => Seq::empty(),
    }) + (match salary {
        Some(v) => seq![PositionChange::Salary(v)],
        None => Seq::empty(),
    }) + (match location {
        Some(v) => seq![PositionChange::Location(v)],
        None => Seq::empty(),
    }) + flag_change(Permission::ManageEmpl, can_manage_empl) + flag_change(
        Permission::ManageProducts,
        can_manage_products,
    ) + flag_change(Permission::ManageCategories, can_manage_categories) + flag_change(
        Permission::SellProducts,
        can_sell_products,
    ) + flag_change(Permission::ManageLocations, can_manage_locations)
}

fn push_flag(changes: &mut Vec<PositionChange>, p: Permission, granted: Option<bool>)
    ensures
        final(changes)@ == old(changes)@ + flag_change(p, granted),
{
    if let Some(g) = granted {
        changes.push(PositionChange::Flag(p, flag(g)));
    }
    assert(changes@ =~= old(changes)@ + flag_change(p, granted));
}

/// The assignments of an edit of position `id`. `salary` is the requested
/// salary, if any, as a decimal (`None` inside where it has none, which is
/// refused with `Invalid`).
pub fn edit(
    id: i32,
    name: Option<String>,
    salary: Option<Option<Decimal>>,
    location: Option<i32>,
    can_manage_empl: Option<bool>,
    can_manage_products: Option<bool>,
    can_manage_categories: Option<bool>,
    can_sell_products: Option<bool>,
    can_manage_locations: Option<bool>,
) -> (r: Result<PositionEdit, BasicErr>)
    ensures
        salary == Some(None::<Decimal>) <==> r == Err::<PositionEdit, BasicErr>(BasicErr::Invalid),
        salary != Some(None::<Decimal>) ==> r is Ok,
        r matches Ok(e) ==> e.id == id && e.changes@ == position_changes(
            name,
            converted(salary),
            location,
            can_manage_empl,
            can_manage_products,
            can_manage_categories,
            can_sell_products,
            can_manage_locations,
        ),
{
    let salary = match salary {
        Some(None) => return Err(BasicErr::Invalid),
        Some(Some(s)) => Some(s),
        None => None,
    };
    let ghost (n0, s0) = (name, salary);
    let mut changes: Vec<PositionChange> = Vec::new();
    if let Some(v) = name {
        changes.push(PositionChange::Name(v));
    }
    if let Some(v) = salary {
        changes.push(PositionChange::Salary(v));
    }
    if let Some(v) = location {
        changes.push(PositionChange::Location(v));
    }
    let ghost head = changes@;
    push_flag(&mut changes, Permission::ManageEmpl, can_manage_empl);
    push_flag(&mut changes, Permission::ManageProducts, can_manage_products);
    push_flag(&mut changes, Permission::ManageCategories, can_manage_categories);
    push_flag(&mut changes, Permission::SellProducts, can_sell_products);
    push_flag(&mut changes, Permission::ManageLocations, can_manage_locations);
    assert(changes@ =~= position_changes(
        n0,
        s0,
        location,
        can_manage_empl,
        can_manage_products,
        can_manage_categories,
        can_sell_products,
        can_manage_locations,
    ));
    Ok(PositionEdit { id, changes })
}

/// Creating a position stores each requested value in its own column: the
/// name, salary and location as given, and for each permission the flag 1 when
/// it was granted, 0 when it was refused, nothing when it was not mentioned. A
/// salary without a decimal value is refused with `Invalid`.
pub proof fn law_position_create_stores_each_value_in_its_own_column(
    name: String,
    salary: Option<Decimal>,
    location: i32,
    can_manage_empl: Option<bool>,
    can_manage_products: Option<bool>,
    can_manage_categories: Option<bool>,
    can_sell_products: Option<bool>,
    can_manage_locations: Option<bool>,
)
    ensures
        spec_create(name, salary, location, can_manage_empl, can_manage_products, can_manage_categories, can_sell_products, can_manage_locations) is Ok <==> salary is Some,
        spec_create(name, salary, location, can_manage_empl, can_manage_products, can_manage_categories, can_sell_products, can_manage_locations) is Err ==> spec_create(name, salary, location, can_manage_empl, can_manage_products, can_manage_categories, can_sell_products, can_manage_locations) == Err::<NewPosition, BasicErr>(BasicErr::Invalid),
        spec_create(name, salary, location, can_manage_empl, can_manage_products, can_manage_categories, can_sell_products, can_manage_locations) matches Ok(p) ==> p.name == name && Some(p.salary) == salary && p.location == location,
        spec_create(name, salary, location, can_manage_empl, can_manage_products, can_manage_categories, can_sell_products, can_manage_locations) matches Ok(p) ==> (p.can_manage_empl == Some(1i8) <==> can_manage_empl == Some(true)),
        spec_create(name, salary, location, can_manage_empl, can_manage_products, can_manage_categories, can_sell_products, can_manage_locations) matches Ok(p) ==> (p.can_manage_empl == Some(0i8) <==> can_manage_empl == Some(false)),
        spec_create(name, salary, location, can_manage_empl, can_manage_products, can_manage_categories, can_sell_products, can_manage_locations) matches Ok(p) ==> (p.can_manage_empl is None <==> can_manage_empl is None),
        spec_create(name, salary, location, can_manage_empl, can_manage_products, can_manage_categories, can_sell_products, can_manage_locations) matches Ok(p) ==> (p.can_manage_products == Some(1i8) <==> can_manage_products == Some(true)),
        spec_create(name, salary, location, can_manage_empl, can_manage_products, can_manage_categories, can_sell_products, can_manage_locations) matches Ok(p) ==> (p.can_manage_products == Some(0i8) <==> can_manage_products == Some(false)),
        spec_create(name, salary, location, can_manage_empl, can_manage_products, can_manage_categories, can_sell_products, can_manage_locations) matches Ok(p) ==> (p.can_manage_products is None <==> can_manage_products is None),
        spec_create(name, salary, location, can_manage_empl, can_manage_products, can_manage_categories, can_sell_products, can_manage_locations) matches Ok(p) ==> (p.can_manage_categories == Some(1i8) <==> can_manage_categories == Some(true)),
        spec_create(name, salary, location, can_manage_empl, can_manage_products, can_manage_categories, can_sell_products, can_manage_locations) matches Ok(p) ==> (p.can_manage_categories == Some(0i8) <==> can_manage_categories == Some(false)),
        spec_create(name, salary, location, can_manage_empl, can_manage_products, can_manage_categories, can_sell_products, can_manage_locations) matches Ok(p) ==> (p.can_manage_categories is None <==> can_manage_categories is None),
        spec_create(name, salary, location, can_manage_empl, can_manage_products, can_manage_categories, can_sell_products, can_manage_locations) matches Ok(p) ==> (p.can_sell_products == Some(1i8) <==> can_sell_products == Some(true)),
        spec_create(name, salary, location, can_manage_empl, can_manage_products, can_manage_categories, can_sell_products, can_manage_locations) matches Ok(p) ==> (p.can_sell_products == Some(0i8) <==> can_sell_products == Some(false)),
        spec_create(name, salary, location, can_manage_empl, can_manage_products, can_manage_categories, can_sell_products, can_manage_locations) matches Ok(p) ==> (p.can_sell_products is None <==> can_sell_products is None),
        spec_create(name, salary, location, can_manage_empl, can_manage_products, can_manage_categories, can_sell_products, can_manage_locations) matches Ok(p) ==> (p.can_manage_locations == Some(1i8) <==> can_manage_locations == Some(true)),
        spec_create(name, salary, location, can_manage_empl, can_manage_products, can_manage_categories, can_sell_products, can_manage_locations) matches Ok(p) ==> (p.can_manage_locations == Some(0i8) <==> can_manage_locations == Some(false)),
        spec_create(name, salary, location, can_manage_empl, can_manage_products, can_manage_categories, can_sell_products, can_manage_locations) matches Ok(p) ==> (p.can_manage_locations is None <==> can_manage_locations is None),
{
}

/// Whether a piece of at most one value holds a value.
pub(crate) proof fn lemma_piece_contains<A>(piece: Seq<A>, x: A)
    requires
        piece.len() <= 1,
    ensures
        piece.len() == 0 ==> !piece.contains(x),
        piece.len() == 1 ==> (piece.contains(x) <==> piece[0] == x),
{
    if piece.len() == 1 && piece[0] == x {
        assert(piece.contains(x));
    }
}

/// Eight pieces joined hold a value exactly when one of them does.
pub(crate) proof fn lemma_eight_contain<A>(
    a: Seq<A>,
    b: Seq<A>,
    c: Seq<A>,
    d: Seq<A>,
    e: Seq<A>,
    f: Seq<A>,
    g: Seq<A>,
    h: Seq<A>,
    x: A,
)
    ensures
        (a + b + c + d + e + f + g + h).contains(x) <==> a.contains(x) || b.contains(x) || c.contains(x)
            || d.contains(x) || e.contains(x) || f.contains(x) || g.contains(x) || h.contains(x),
{
    vstd::seq_lib::lemma_seq_concat_contains_all_elements(a, b, x);
    vstd::seq_lib::lemma_seq_concat_contains_all_elements(a + b, c, x);
    vstd::seq_lib::lemma_seq_concat_contains_all_elements(a + b + c, d, x);
    vstd::seq_lib::lemma_seq_concat_contains_all_elements(a + b + c + d, e, x);
    vstd::seq_lib::lemma_seq_concat_contains_all_elements(a + b + c + d + e, f, x);
    vstd::seq_lib::lemma_seq_concat_contains_all_elements(a + b + c + d + e + f, g, x);
    vstd::seq_lib::lemma_seq_concat_contains_all_elements(a + b + c + d + e + f + g, h, x);
}

/// Five pieces joined hold a value exactly when one of them does.
pub(crate) proof fn lemma_five_contain<A>(a: Seq<A>, b: Seq<A>, c: Seq<A>, d: Seq<A>, e: Seq<A>, x: A)
    ensures
        (a + b + c + d + e).contains(x) <==> a.contains(x) || b.contains(x) || c.contains(x) || d.contains(x)
            || e.contains(x),
{
    vstd::seq_lib::lemma_seq_concat_contains_all_elements(a, b, x);
    vstd::seq_lib::lemma_seq_concat_contains_all_elements(a + b, c, x);
    vstd::seq_lib::lemma_seq_concat_contains_all_elements(a + b + c, d, x);
    vstd::seq_lib::lemma_seq_concat_contains_all_elements(a + b + c + d, e, x);
}

/// An edit writes each requested value to its own column and writes nothing
/// else: the name, salary and location where given, and for each permission
/// the flag 1 when it is granted, 0 when it is withdrawn.
pub proof fn law_position_edit_writes_each_value_to_its_own_column(
    name: Option<String>,
    salary: Option<Decimal>,
    location: Option<i32>,
    can_manage_empl: Option<bool>,
    can_manage_products: Option<bool>,
    can_manage_categories: Option<bool>,
    can_sell_products: Option<bool>,
    can_manage_locations: Option<bool>,
    text: String,
    amount: Decimal,
    place: i32,
    v: i8,
)
    ensures
        position_changes(name, salary, location, can_manage_empl, can_manage_products, can_manage_categories, can_sell_products, can_manage_locations).contains(PositionChange::Name(text)) <==> name == Some(text),
        position_changes(name, salary, location, can_manage_empl, can_manage_products, can_manage_categories, can_sell_products, can_manage_locations).contains(PositionChange::Salary(amount)) <==> salary == Some(amount),
        position_changes(name, salary, location, can_manage_empl, can_manage_products, can_manage_categories, can_sell_products, can_manage_locations).contains(PositionChange::Location(place)) <==> location == Some(place),
        position_changes(name, salary, location, can_manage_empl, can_manage_products, can_manage_categories, can_sell_products, can_manage_locations).contains(PositionChange::Flag(Permission::ManageEmpl, v)) <==> (can_manage_empl == Some(true)
            && v == 1) || (can_manage_empl == Some(false) && v == 0),
        position_changes(name, salary, location, can_manage_empl, can_manage_products, can_manage_categories, can_sell_products, can_manage_locations).contains(PositionChange::Flag(Permission::ManageProducts, v)) <==> (can_manage_products == Some(true)
            && v == 1) || (can_manage_products == Some(false) && v == 0),
        position_changes(name, salary, location, can_manage_empl, can_manage_products, can_manage_categories, can_sell_products, can_manage_locations).contains(PositionChange::Flag(Permission::ManageCategories, v)) <==> (can_manage_categories == Some(true)
            && v == 1) || (can_manage_categories == Some(false) && v == 0),
        position_changes(name, salary, location, can_manage_empl, can_manage_products, can_manage_categories, can_sell_products, can_manage_locations).contains(PositionChange::Flag(Permission::SellProducts, v)) <==> (can_sell_products == Some(true)
            && v == 1) || (can_sell_products == Some(false) && v == 0),
        position_changes(name, salary, location, can_manage_empl, can_manage_products, can_manage_categories, can_sell_products, can_manage_locations).contains(PositionChange::Flag(Permission::ManageLocations, v)) <==> (can_manage_locations == Some(true)
            && v == 1) || (can_manage_locations == Some(false) && v == 0),
{
    let pn = match name {
        Some(t) => seq![PositionChange::Name(t)],
        None => Seq::empty(),
    };
    let ps = match salary {
        Some(t) => seq![PositionChange::Salary(t)],
        None => Seq::empty(),
    };
    let pl = match location {
        Some(t) => seq![PositionChange::Location(t)],
        None => Seq::empty(),
    };
    let f1 = flag_change(Permission::ManageEmpl, can_manage_empl);
    let f2 = flag_change(Permission::ManageProducts, can_manage_products);
    let f3 = flag_change(Permission::ManageCategories, can_manage_categories);
    let f4 = flag_change(Permission::SellProducts, can_sell_products);
    let f5 = flag_change(Permission::ManageLocations, can_manage_locations);
    assert(position_changes(name, salary, location, can_manage_empl, can_manage_products, can_manage_categories, can_sell_products, can_manage_locations) == pn + ps + pl + f1 + f2 + f3 + f4 + f5);
    lemma_eight_contain(pn, ps, pl, f1, f2, f3, f4, f5, PositionChange::Name(text));
    lemma_piece_contains(pn, PositionChange::Name(text));
    lemma_piece_contains(ps, PositionChange::Name(text));
    lemma_piece_contains(pl, PositionChange::Name(text));
    lemma_piece_contains(f1, PositionChange::Name(text));
    lemma_piece_contains(f2, PositionChange::Name(text));
    lemma_piece_contains(f3, PositionChange::Name(text));
    lemma_piece_contains(f4, PositionChange::Name(text));
    lemma_piece_contains(f5, PositionChange::Name(text));
    lemma_eight_contain(pn, ps, pl, f1, f2, f3, f4, f5, PositionChange::Salary(amount));
    lemma_piece_contains(pn, PositionChange::Salary(amount));
    lemma_piece_contains(ps, PositionChange::Salary(amount));
    lemma_piece_contains(pl, PositionChange::Salary(amount));
    lemma_piece_contains(f1, PositionChange::Salary(amount));
    lemma_piece_contains(f2, PositionChange::Salary(amount));
    lemma_piece_contains(f3, PositionChange::Salary(amount));
    lemma_piece_contains(f4, PositionChange::Salary(amount));
    lemma_piece_contains(f5, PositionChange::Salary(amount));
    lemma_eight_contain(pn, ps, pl, f1, f2, f3, f4, f5, PositionChange::Location(place));
    lemma_piece_contains(pn, PositionChange::Location(place));
    lemma_piece_contains(ps, PositionChange::Location(place));
    lemma_piece_contains(pl, PositionChange::Location(place));
    lemma_piece_contains(f1, PositionChange::Location(place));
    lemma_piece_contains(f2, PositionChange::Location(place));
    lemma_piece_contains(f3, PositionChange::Location(place));
    lemma_piece_contains(f4, PositionChange::Location(place));
    lemma_piece_contains(f5, PositionChange::Location(place));
    lemma_eight_contain(pn, ps, pl, f1, f2, f3, f4, f5, PositionChange::Flag(Permission::ManageEmpl, v));
    lemma_piece_contains(pn, PositionChange::Flag(Permission::ManageEmpl, v));
    lemma_piece_contains(ps, PositionChange::Flag(Permission::ManageEmpl, v));
    lemma_piece_contains(pl, PositionChange::Flag(Permission::ManageEmpl, v));
    lemma_piece_contains(f1, PositionChange::Flag(Permission::ManageEmpl, v));
    lemma_piece_contains(f2, PositionChange::Flag(Permission::ManageEmpl, v));
    lemma_piece_contains(f3, PositionChange::Flag(Permission::ManageEmpl, v));
    lemma_piece_contains(f4, PositionChange::Flag(Permission::ManageEmpl, v));
    lemma_piece_contains(f5, PositionChange::Flag(Permission::ManageEmpl, v));
    lemma_eight_contain(pn, ps, pl, f1, f2, f3, f4, f5, PositionChange::Flag(Permission::ManageProducts, v));
    lemma_piece_contains(pn, PositionChange::Flag(Permission::ManageProducts, v));
    lemma_piece_contains(ps, PositionChange::Flag(Permission::ManageProducts, v));
    lemma_piece_contains(pl, PositionChange::Flag(Permission::ManageProducts, v));
    lemma_piece_contains(f1, PositionChange::Flag(Permission::ManageProducts, v));
    lemma_piece_contains(f2, PositionChange::Flag(Permission::ManageProducts, v));
    lemma_piece_contains(f3, PositionChange::Flag(Permission::ManageProducts, v));
    lemma_piece_contains(f4, PositionChange::Flag(Permission::ManageProducts, v));
    lemma_piece_contains(f5, PositionChange::Flag(Permission::ManageProducts, v));
    lemma_eight_contain(pn, ps, pl, f1, f2, f3, f4, f5, PositionChange::Flag(Permission::ManageCategories, v));
    lemma_piece_contains(pn, PositionChange::Flag(Permission::ManageCategories, v));
    lemma_piece_contains(ps, PositionChange::Flag(Permission::ManageCategories, v));
    lemma_piece_contains(pl, PositionChange::Flag(Permission::ManageCategories, v));
    lemma_piece_contains(f1, PositionChange::Flag(Permission::ManageCategories, v));
    lemma_piece_contains(f2, PositionChange::Flag(Permission::ManageCategories, v));
    lemma_piece_contains(f3, PositionChange::Flag(Permission::ManageCategories, v));
    lemma_piece_contains(f4, PositionChange::Flag(Permission::ManageCategories, v));
    lemma_piece_contains(f5, PositionChange::Flag(Permission::ManageCategories, v));
    lemma_eight_contain(pn, ps, pl, f1, f2, f3, f4, f5, PositionChange::Flag(Permission::SellProducts, v));
    lemma_piece_contains(pn, PositionChange::Flag(Permission::SellProducts, v));
    lemma_piece_contains(ps, PositionChange::Flag(Permission::SellProducts, v));
    lemma_piece_contains(pl, PositionChange::Flag(Permission::SellProducts, v));
    lemma_piece_contains(f1, PositionChange::Flag(Permission::SellProducts, v));
    lemma_piece_contains(f2, PositionChange::Flag(Permission::SellProducts, v));
    lemma_piece_contains(f3, PositionChange::Flag(Permission::SellProducts, v));
    lemma_piece_contains(f4, PositionChange::Flag(Permission::SellProducts, v));
    lemma_piece_contains(f5, PositionChange::Flag(Permission::SellProducts, v));
    lemma_eight_contain(pn, ps, pl, f1, f2, f3, f4, f5, PositionChange::Flag(Permission::ManageLocations, v));
    lemma_piece_contains(pn, PositionChange::Flag(Permission::ManageLocations, v));
    lemma_piece_contains(ps, PositionChange::Flag(Permission::ManageLocations, v));
    lemma_piece_contains(pl, PositionChange::Flag(Permission::ManageLocations, v));
    lemma_piece_contains(f1, PositionChange::Flag(Permission::ManageLocations, v));
    lemma_piece_contains(f2, PositionChange::Flag(Permission::ManageLocations, v));
    lemma_piece_contains(f3, PositionChange::Flag(Permission::ManageLocations, v));
    lemma_piece_contains(f4, PositionChange::Flag(Permission::ManageLocations, v));
    lemma_piece_contains(f5, PositionChange::Flag(Permission::ManageLocations, v));
}

} // verus!
