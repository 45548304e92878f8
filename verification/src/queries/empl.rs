//! Employees: the name filter, and the records that hiring or editing one
//! writes.

use vstd::prelude::*;
use sqlx::types::Decimal;
use crate::filter::{text_filter, text_of, text_search, Column, Filter};
use crate::queries::BasicErr;
use crate::queries::products::converted;
use crate::queries::positions::{lemma_five_contain, lemma_piece_contains};

verus! {

/// Search by employee name; no filter without a name.
pub fn name_cond(name: Option<String>) -> (f: Filter)
    ensures
        f@ == text_filter(Column::EmployeeName, text_of(name)),
{
    text_search(Column::EmployeeName, name)
}

/// An employee record to insert; without a salary bonus the database's
/// default is kept.
#[derive(Debug, PartialEq)]
pub struct NewEmployee {
    pub surname: String,
    pub name: String,
    pub patronim: String,
    pub position: i32,
    pub salary_bonus: Option<Decimal>,
}

/// The record that hiring an employee inserts. `salary_bonus` is the
/// requested bonus, if any, as a decimal (`None` inside where it has none,
/// which is refused with `Invalid`).
pub fn create(
    surname: String,
    name: String,
    patronim: String,
    position: i32,
    salary_bonus: Option<Option<Decimal>>,
) -> (r: Result<NewEmployee, BasicErr>)
    ensures
        salary_bonus == Some(None::<Decimal>) ==> r == Err::<NewEmployee, BasicErr>(BasicErr::Invalid),
        salary_bonus != Some(None::<Decimal>) ==> r == Ok::<NewEmployee, BasicErr>(
            NewEmployee { surname, name, patronim, position, salary_bonus: converted(salary_bonus) },
        ),
{
    let salary_bonus = match salary_bonus {
        Some(None) => return Err(BasicErr::Invalid),
        Some(Some(b)) => Some(b),
        None => None,
    };
    Ok(NewEmployee { surname, name, patronim, position, salary_bonus })
}

/// One column assignment of an employee edit; the bonus is written as it
/// was given.
#[derive(Debug, PartialEq)]
pub enum EmployeeChange<B> {
    Surname(String),
    Name(String),
    Patronim(String),
    Position(i32),
    SalaryBonus(B),
}

/// The assignments of an employee edit, in the order they are written.
#[derive(Debug, PartialEq)]
pub struct EmployeeEdit<B> {
    pub id: i32,
    pub changes: Vec<EmployeeChange<B>>,
}

/// The assignments that an edit writes: each given value in the order
/// surname, name, patronim, position, salary bonus.
pub open spec fn employee_changes<B>(
    surname: Option<String>,
    name: Option<String>,
    patronim: Option<String>,
    position: Option<i32>,
    salary_bonus: Option<B>,
) -> Seq<EmployeeChange<B>> {
    (match surname {
        Some(v) => seq![EmployeeChange::Surname(v)],
        None => Seq::empty(),
    }) + (match name {
        Some(v) => seq![EmployeeChange::Name(v)],
        None => Seq::empty(),
    }) + (match patronim {
        Some(v) => seq![EmployeeChange::Patronim(v)],
        None => Seq::empty(),
    }) + (match position {
        Some(v) => seq![EmployeeChange::Position(v)],
        None => Seq::empty(),
    }) + (match salary_bonus {
        Some(v) => seq![EmployeeChange::SalaryBonus(v)],
        None => Seq::empty(),
    })
}

/// The assignments of an edit of employee `id`.
pub fn edit<B>(
    id: i32,
    surname: Option<String>,
    name: Option<String>,
    patronim: Option<String>,
    position: Option<i32>,
    salary_bonus: Option<B>,
) -> (e: EmployeeEdit<B>)
    ensures
        e.id == id,
        e.changes@ == employee_changes(surname, name, patronim, position, salary_bonus),
{
    let ghost (s0, n0, p0, b0) = (surname, name, patronim, salary_bonus);
    let mut changes: Vec<EmployeeChange<B>> = Vec::new();
    if let Some(v) = surname {
        changes.push(EmployeeChange::Surname(v));
    }
    if let Some(v) = name {
        changes.push(EmployeeChange::Name(v));
    }
    if let Some(v) = patronim {
        changes.push(EmployeeChange::Patronim(v));
    }
    if let Some(v) = position {
        changes.push(EmployeeChange::Position(v));
    }
    if let Some(v) = salary_bonus {
        changes.push(EmployeeChange::SalaryBonus(v));
    }
    assert(changes@ =~= employee_changes(s0, n0, p0, position, b0));
    EmployeeEdit { id, changes }
}

/// An edit writes each given value to its own column and nothing else: the
/// surname to the surname, the name to the name, the patronymic to the
/// patronymic, the position to the position and the bonus to the bonus.
pub proof fn law_employee_edit_writes_each_value_to_its_own_column<B>(
    surname: Option<String>,
    name: Option<String>,
    patronim: Option<String>,
    position: Option<i32>,
    salary_bonus: Option<B>,
    text: String,
    place: i32,
    bonus: B,
)
    ensures
        employee_changes(surname, name, patronim, position, salary_bonus).contains(EmployeeChange::Surname(text)) <==> surname == Some(text),
        employee_changes(surname, name, patronim, position, salary_bonus).contains(EmployeeChange::Name(text)) <==> name == Some(text),
        employee_changes(surname, name, patronim, position, salary_bonus).contains(EmployeeChange::Patronim(text)) <==> patronim == Some(text),
        employee_changes(surname, name, patronim, position, salary_bonus).contains(EmployeeChange::Position(place)) <==> position == Some(place),
        employee_changes(surname, name, patronim, position, salary_bonus).contains(EmployeeChange::SalaryBonus(bonus)) <==> salary_bonus == Some(bonus),
{
    let a = match surname {
        Some(v) => seq![EmployeeChange::Surname(v)],
        None => Seq::empty(),
    };
    let b = match name {
        Some(v) => seq![EmployeeChange::Name(v)],
        None => Seq::empty(),
    };
    let c = match patronim {
        Some(v) => seq![EmployeeChange::Patronim(v)],
        None => Seq::empty(),
    };
    let d = match position {
        Some(v) => seq![EmployeeChange::Position(v)],
        None => Seq::empty(),
    };
    let e = match salary_bonus {
        Some(v) => seq![EmployeeChange::SalaryBonus(v)],
        None => Seq::empty(),
    };
    assert(employee_changes(surname, name, patronim, position, salary_bonus) == a + b + c + d + e);
    lemma_five_contain(a, b, c, d, e, EmployeeChange::Surname(text));
    lemma_piece_contains(a, EmployeeChange::Surname(text));
    lemma_piece_contains(b, EmployeeChange::Surname(text));
    lemma_piece_contains(c, EmployeeChange::Surname(text));
    lemma_piece_contains(d, EmployeeChange::Surname(text));
    lemma_piece_contains(e, EmployeeChange::Surname(text));
    lemma_five_contain(a, b, c, d, e, EmployeeChange::Name(text));
    lemma_piece_contains(a, EmployeeChange::Name(text));
    lemma_piece_contains(b, EmployeeChange::Name(text));
    lemma_piece_contains(c, EmployeeChange::Name(text));
    lemma_piece_contains(d, EmployeeChange::Name(text));
    lemma_piece_contains(e, EmployeeChange::Name(text));
    lemma_five_contain(a, b, c, d, e, EmployeeChange::Patronim(text));
    lemma_piece_contains(a, EmployeeChange::Patronim(text));
    lemma_piece_contains(b, EmployeeChange::Patronim(text));
    lemma_piece_contains(c, EmployeeChange::Patronim(text));
    lemma_piece_contains(d, EmployeeChange::Patronim(text));
    lemma_piece_contains(e, EmployeeChange::Patronim(text));
    lemma_five_contain(a, b, c, d, e, EmployeeChange::Position(place));
    lemma_piece_contains(a, EmployeeChange::Position(place));
    lemma_piece_contains(b, EmployeeChange::Position(place));
    lemma_piece_contains(c, EmployeeChange::Position(place));
    lemma_piece_contains(d, EmployeeChange::Position(place));
    lemma_piece_contains(e, EmployeeChange::Position(place));
    lemma_five_contain(a, b, c, d, e, EmployeeChange::SalaryBonus(bonus));
    lemma_piece_contains(a, EmployeeChange::SalaryBonus(bonus));
    lemma_piece_contains(b, EmployeeChange::SalaryBonus(bonus));
    lemma_piece_contains(c, EmployeeChange::SalaryBonus(bonus));
    lemma_piece_contains(d, EmployeeChange::SalaryBonus(bonus));
    lemma_piece_contains(e, EmployeeChange::SalaryBonus(bonus));
}

} // verus!
