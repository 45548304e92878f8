//! Row filters of the list queries, held as plain data.
//!
//! A filter is a junction of simple predicates over one column each. The
//! meaning given here is that of the rendered SQL: an `All` junction holds
//! when every predicate holds (so an empty one always holds), an `Any`
//! junction holds when some predicate holds (so an empty one never holds).

use vstd::prelude::*;

verus! {

/// The columns that the filters test.
#[derive(Clone, Copy, Debug, PartialEq, Eq, Structural)]
pub enum Column {
    CategoryName,
    EmployeeName,
    EmployeePosition,
    LocationName,
    LocationAddress,
    PositionName,
    PositionSalary,
    PositionLocation,
    ProductName,
    ProductCategory,
    ProductFinalPrice,
    StockLocation,
}

/// A test on one column of a row.
#[derive(Debug, PartialEq)]
pub enum Predicate {
    /// The text of the column contains the given text (`LIKE '%text%'`).
    Contains(Column, String),
    /// The value of the column is at least the bound (`>=`).
    AtLeast(Column, i64),
    /// The value of the column is at most the bound (`<=`).
    AtMost(Column, i64),
    /// The value of the column equals the given one (`=`).
    Equals(Column, i64),
    /// The column holds no value (`IS NULL`).
    IsNull(Column),
    /// The value of the column is one of the given ones (`IN (..)`); no row
    /// passes an empty list.
    IsIn(Column, Vec<i32>),
}

/// How the predicates of a filter combine.
#[derive(Clone, Copy, Debug, PartialEq, Eq, Structural)]
pub enum Junction {
    Any,
    All,
}

/// The mathematical form of a predicate.
pub enum Atom {
    Contains(Column, Seq<char>),
    AtLeast(Column, int),
    AtMost(Column, int),
    Equals(Column, int),
    IsNull(Column),
    IsIn(Column, Seq<i32>),
}

impl View for Predicate {
    type V = Atom;

    open spec fn view(&self) -> Atom {
        match self {
            Predicate::Contains(c, s) => Atom::Contains(*c, s@),
            Predicate::AtLeast(c, v) => Atom::AtLeast(*c, *v as int),
            Predicate::AtMost(c, v) => Atom::AtMost(*c, *v as int),
            Predicate::Equals(c, v) => Atom::Equals(*c, *v as int),
            Predicate::IsNull(c) => Atom::IsNull(*c),
            Predicate::IsIn(c, ids) => Atom::IsIn(*c, ids@),
        }
    }
}

/// A filter: predicates joined by one junction.
#[derive(Debug, PartialEq)]
pub struct Filter {
    pub junction: Junction,
    pub parts: Vec<Predicate>,
}

/// The mathematical form of a filter.
pub struct FilterSpec {
    pub junction: Junction,
    pub atoms: Seq<Atom>,
}

impl FilterSpec {
    /// Whether a row passes the filter, given which predicates the row meets.
    pub open spec fn admits(self, meets: spec_fn(Atom) -> bool) -> bool {
        match self.junction {
            Junction::All => forall|i: int| 0 <= i < self.atoms.len() ==> meets(#[trigger] self.atoms[i]),
            Junction::Any => exists|i: int| 0 <= i < self.atoms.len() && meets(#[trigger] self.atoms[i]),
        }
    }
}

impl View for Filter {
    type V = FilterSpec;

    open spec fn view(&self) -> FilterSpec {
        FilterSpec { junction: self.junction, atoms: self.parts@.map_values(|p: Predicate| p@) }
    }
}

/// The filter that every row passes.
pub open spec fn pass_all() -> FilterSpec {
    FilterSpec { junction: Junction::All, atoms: Seq::empty() }
}

/// The filter that no row passes.
pub open spec fn pass_none() -> FilterSpec {
    FilterSpec { junction: Junction::Any, atoms: Seq::empty() }
}

impl Filter {
    /// A filter with no predicate yet.
    pub fn new(junction: Junction) -> (f: Filter)
        ensures
            f@ == (FilterSpec { junction, atoms: Seq::empty() }),
    {
        let f = Filter { junction, parts: Vec::new() };
        assert(f@.atoms =~= Seq::<Atom>::empty());
        f
    }

    /// Adds one predicate at the end.
    pub fn add(&mut self, p: Predicate)
        ensures
            final(self)@ == (FilterSpec { junction: old(self)@.junction, atoms: old(self)@.atoms.push(p@) }),
    {
        self.parts.push(p);
        assert(self@.atoms =~= old(self)@.atoms.push(p@));
    }

    /// A filter of a single predicate, which holds when the predicate holds.
    pub fn only(p: Predicate) -> (f: Filter)
        ensures
            f@ == (FilterSpec { junction: Junction::All, atoms: seq![p@] }),
    {
        let mut f = Filter::new(Junction::All);
        f.add(p);
        assert(f@.atoms =~= seq![p@]);
        f
    }
}

/// The bounds of a range filter once a single requested value `v` (both
/// bounds equal) has been widened to `v - 1 ..= v + 1`.
pub open spec fn widened(lo: Option<int>, hi: Option<int>) -> (Option<int>, Option<int>) {
    if lo is Some && lo == hi {
        (Some(lo->0 - 1), Some(hi->0 + 1))
    } else {
        (lo, hi)
    }
}

/// The predicates of a range filter on `col`: a lower bound, then an upper
/// bound, each only where it is given.
pub open spec fn range_atoms(col: Column, lo: Option<int>, hi: Option<int>) -> Seq<Atom> {
    (match lo {
        Some(v) => seq![Atom::AtLeast(col, v)],
        None => Seq::empty(),
    }) + (match hi {
        Some(v) => seq![Atom::AtMost(col, v)],
        None => Seq::empty(),
    })
}

/// The filter that a range query on `col` builds from the requested bounds.
pub open spec fn range_filter(col: Column, lo: Option<int>, hi: Option<int>) -> FilterSpec {
    let (l, h) = widened(lo, hi);
    FilterSpec { junction: Junction::All, atoms: range_atoms(col, l, h) }
}

/// The filter that a text search on `col` builds.
pub open spec fn text_filter(col: Column, text: Option<Seq<char>>) -> FilterSpec {
    match text {
        Some(t) => FilterSpec { junction: Junction::All, atoms: seq![Atom::Contains(col, t)] },
        None => pass_all(),
    }
}

/// The filter that admits rows whose `col` equals one of `ids`.
pub open spec fn one_of_filter(col: Column, ids: Option<Seq<i32>>) -> FilterSpec {
    match ids {
        Some(v) => FilterSpec { junction: Junction::Any, atoms: v.map_values(|id: i32| Atom::Equals(col, id as int)) },
        None => pass_none(),
    }
}

/// The text of an optional string.
pub open spec fn text_of(t: Option<String>) -> Option<Seq<char>> {
    match t {
        Some(s) => Some(s@),
        None => None,
    }
}

/// The ids of an optional list.
pub open spec fn ids_of(v: Option<Vec<i32>>) -> Option<Seq<i32>> {
    match v {
        Some(ids) => Some(ids@),
        None => None,
    }
}

/// Builds the filter of a text search on `col`: no filter without a text.
pub fn text_search(col: Column, text: Option<String>) -> (f: Filter)
    ensures
        f@ == text_filter(col, text_of(text)),
{
    match text {
        Some(t) => Filter::only(Predicate::Contains(col, t)),
        None => Filter::new(Junction::All),
    }
}

/// Builds the filter that admits rows whose `col` equals one of `ids`.
pub fn one_of(col: Column, ids: Option<Vec<i32>>) -> (f: Filter)
    ensures
        f@ == one_of_filter(col, ids_of(ids)),
{
    let mut f = Filter::new(Junction::Any);
    if let Some(v) = ids {
        let n = v.len();
        for i in 0..n
            invariant
                n == v@.len(),
                f@.junction == Junction::Any,
                f@.atoms =~= v@.take(i as int).map_values(|id: i32| Atom::Equals(col, id as int)),
        {
            f.add(Predicate::Equals(col, v[i] as i64));
            assert(v@.take(i + 1) =~= v@.take(i as int).push(v@[i as int]));
        }
        assert(v@.take(n as int) =~= v@);
    }
    f
}

/// A single requested value `v` admits the values `v - 1 ..= v + 1`; other
/// bounds are kept as given.
pub proof fn law_single_value_widens_by_one(col: Column, lo: Option<int>, hi: Option<int>)
    ensures
        lo is Some && lo == hi ==> range_filter(col, lo, hi).atoms
            == seq![Atom::AtLeast(col, lo->0 - 1), Atom::AtMost(col, lo->0 + 1)],
        !(lo is Some && lo == hi) ==> range_filter(col, lo, hi).atoms == range_atoms(col, lo, hi),
        range_filter(col, None, None).admits(|a: Atom| false),
{
    assert(range_atoms(col, None, None) =~= Seq::<Atom>::empty());
    if lo is Some && lo == hi {
        assert(range_filter(col, lo, hi).atoms =~= seq![Atom::AtLeast(col, lo->0 - 1), Atom::AtMost(col, lo->0 + 1)]);
    }
}

/// A range filter keeps exactly the rows at or above the lower bound and at
/// or below the upper bound, of those that are given; distinct bounds are
/// kept as they are, and every filter of a range is a conjunction.
pub proof fn law_range_keeps_rows_within_the_bounds(col: Column, lo: int, hi: int, meets: spec_fn(Atom) -> bool)
    ensures
        lo != hi ==> range_filter(col, Some(lo), Some(hi)).atoms == seq![Atom::AtLeast(col, lo), Atom::AtMost(col, hi)],
        range_filter(col, Some(lo), None).atoms == seq![Atom::AtLeast(col, lo)],
        range_filter(col, None, Some(hi)).atoms == seq![Atom::AtMost(col, hi)],
        range_filter(col, None, None).atoms.len() == 0,
        lo != hi ==> (range_filter(col, Some(lo), Some(hi)).admits(meets) <==> meets(Atom::AtLeast(col, lo)) && meets(
            Atom::AtMost(col, hi),
        )),
        range_filter(col, Some(lo), Some(lo)).admits(meets) <==> meets(Atom::AtLeast(col, lo - 1)) && meets(
            Atom::AtMost(col, lo + 1),
        ),
        range_filter(col, Some(lo), Some(hi)).junction == Junction::All,
{
    assert(range_filter(col, Some(lo), None).atoms =~= seq![Atom::AtLeast(col, lo)]);
    assert(range_filter(col, None, Some(hi)).atoms =~= seq![Atom::AtMost(col, hi)]);
    assert(range_filter(col, None, None).atoms =~= Seq::<Atom>::empty());
    if lo != hi {
        let f = range_filter(col, Some(lo), Some(hi));
        assert(f.atoms =~= seq![Atom::AtLeast(col, lo), Atom::AtMost(col, hi)]);
        if meets(Atom::AtLeast(col, lo)) && meets(Atom::AtMost(col, hi)) {
            assert forall|i: int| 0 <= i < f.atoms.len() implies meets(#[trigger] f.atoms[i]) by {
                assert(i == 0 || i == 1);
            }
        }
        if f.admits(meets) {
            assert(meets(f.atoms[0]) && meets(f.atoms[1]));
        }
    }
    let g = range_filter(col, Some(lo), Some(lo));
    assert(g.atoms =~= seq![Atom::AtLeast(col, lo - 1), Atom::AtMost(col, lo + 1)]);
    if meets(Atom::AtLeast(col, lo - 1)) && meets(Atom::AtMost(col, lo + 1)) {
        assert forall|i: int| 0 <= i < g.atoms.len() implies meets(#[trigger] g.atoms[i]) by {
            assert(i == 0 || i == 1);
        }
    }
    if g.admits(meets) {
        assert(meets(g.atoms[0]) && meets(g.atoms[1]));
    }
}

/// A text search keeps exactly the rows whose column contains the text.
pub proof fn law_text_search_keeps_rows_containing_the_text(col: Column, text: Seq<char>, meets: spec_fn(Atom) -> bool)
    ensures
        text_filter(col, Some(text)).admits(meets) <==> meets(Atom::Contains(col, text)),
{
    let f = text_filter(col, Some(text));
    if f.admits(meets) {
        assert(meets(f.atoms[0]));
    }
}

/// Without a text every row passes a text search; without a list of ids no
/// row passes a one-of filter.
pub proof fn law_absent_arguments(col: Column, meets: spec_fn(Atom) -> bool)
    ensures
        text_filter(col, None).admits(meets),
        !one_of_filter(col, None).admits(meets),
{
}

/// A row passes a one-of filter exactly when its value is one of the ids.
pub proof fn law_one_of_admits_listed(col: Column, ids: Seq<i32>, meets: spec_fn(Atom) -> bool)
    ensures
        one_of_filter(col, Some(ids)).admits(meets)
            <==> exists|i: int| 0 <= i < ids.len() && meets(Atom::Equals(col, #[trigger] ids[i] as int)),
{
    let f = one_of_filter(col, Some(ids));
    if f.admits(meets) {
        let i = choose|i: int| 0 <= i < f.atoms.len() && meets(#[trigger] f.atoms[i]);
        assert(meets(Atom::Equals(col, ids[i] as int)));
    }
    if exists|i: int| 0 <= i < ids.len() && meets(Atom::Equals(col, #[trigger] ids[i] as int)) {
        let i = choose|i: int| 0 <= i < ids.len() && meets(Atom::Equals(col, #[trigger] ids[i] as int));
        assert(meets(f.atoms[i]));
    }
}

} // verus!
