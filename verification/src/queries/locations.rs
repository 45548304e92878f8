//! Locations: their search filter, and what editing one writes.

use vstd::prelude::*;
use crate::filter::{pass_all, Atom, Column, Filter, FilterSpec, Junction, Predicate};

verus! {

/// The filter of a location search: a location passes when its name or its
/// address contains the text. Without a text every location passes.
pub open spec fn spec_name_cond(text: Option<Seq<char>>) -> FilterSpec {
    match text {
        Some(t) => FilterSpec {
            junction: Junction::Any,
            atoms: seq![Atom::Contains(Column::LocationName, t), Atom::Contains(Column::LocationAddress, t)],
        },
        None => pass_all(),
    }
}

/// Builds the filter of a location search by name or address.
pub fn name_cond(name: Option<String>) -> (f: Filter)
    ensures
        f@ == spec_name_cond(crate::filter::text_of(name)),
{
    match name {
        Some(v) => {
            let mut f = Filter::new(Junction::Any);
            f.add(Predicate::Contains(Column::LocationName, v.clone()));
            f.add(Predicate::Contains(Column::LocationAddress, v));
            assert(f@.atoms =~= spec_name_cond(crate::filter::text_of(Some(v))).atoms);
            f
        },
        None => Filter::new(Junction::All),
    }
}

/// One column assignment of a location edit.
#[derive(Debug, PartialEq)]
pub enum LocationChange {
    Name(String),
    Address(String),
}

/// The assignments of a location edit, in the order they are written.
#[derive(Debug, PartialEq)]
pub struct LocationEdit {
    pub id: i32,
    pub changes: Vec<LocationChange>,
}

/// The assignments that an edit writes: the name, then the address, each
/// where it is given.
pub open spec fn location_changes(name: Option<String>, address: Option<String>) -> Seq<LocationChange> {
    (match name {
        Some(v) => seq![LocationChange::Name(v)],
        None => Seq::empty(),
    }) + (match address {
        Some(v) => seq![LocationChange::Address(v)],
        None => Seq::empty(),
    })
}

/// The assignments of an edit of location `id`.
pub fn edit(id: i32, name: Option<String>, address: Option<String>) -> (e: LocationEdit)
    ensures
        e.id == id,
        e.changes@ == location_changes(name, address),
{
    let ghost (n0, a0) = (name, address);
    let mut changes: Vec<LocationChange> = Vec::new();
    if let Some(v) = name {
        changes.push(LocationChange::Name(v));
    }
    if let Some(v) = address {
        changes.push(LocationChange::Address(v));
    }
    assert(changes@ =~= location_changes(n0, a0));
    LocationEdit { id, changes }
}

/// An edit writes the name to the name and the address to the address, each
/// only where given.
pub proof fn law_location_edit_writes_each_value_to_its_own_column(
    name: Option<String>,
    address: Option<String>,
    text: String,
)
    ensures
        location_changes(name, address).contains(LocationChange::Name(text)) <==> name == Some(text),
        location_changes(name, address).contains(LocationChange::Address(text)) <==> address == Some(text),
        location_changes(name, address).len() == (if name is Some { 1int } else { 0 }) + (if address is Some {
            1int
        } else {
            0
        }),
{
    let a = match name {
        Some(v) => seq![LocationChange::Name(v)],
        None => Seq::empty(),
    };
    let b = match address {
        Some(v) => seq![LocationChange::Address(v)],
        None => Seq::empty(),
    };
    assert(location_changes(name, address) == a + b);
    vstd::seq_lib::lemma_seq_concat_contains_all_elements(a, b, LocationChange::Name(text));
    vstd::seq_lib::lemma_seq_concat_contains_all_elements(a, b, LocationChange::Address(text));
    crate::queries::positions::lemma_piece_contains(a, LocationChange::Name(text));
    crate::queries::positions::lemma_piece_contains(b, LocationChange::Name(text));
    crate::queries::positions::lemma_piece_contains(a, LocationChange::Address(text));
    crate::queries::positions::lemma_piece_contains(b, LocationChange::Address(text));
}

/// A location passes a search exactly when its name or its address contains
/// the text; without a text every location passes.
pub proof fn law_location_search_looks_at_name_and_address(
    text: Seq<char>,
    meets: spec_fn(Atom) -> bool,
)
    ensures
        spec_name_cond(Some(text)).admits(meets) <==> meets(Atom::Contains(Column::LocationName, text)) || meets(
            Atom::Contains(Column::LocationAddress, text),
        ),
        spec_name_cond(None).admits(meets),
{
    let f = spec_name_cond(Some(text));
    if f.admits(meets) {
        let i = choose|i: int| 0 <= i < f.atoms.len() && meets(#[trigger] f.atoms[i]);
        assert(i == 0 || i == 1);
    }
    if meets(Atom::Contains(Column::LocationAddress, text)) {
        assert(meets(f.atoms[1]));
    }
    if meets(Atom::Contains(Column::LocationName, text)) {
        assert(meets(f.atoms[0]));
    }
}

} // verus!
