//! Categories: the name filter of their list.

use vstd::prelude::*;
use crate::filter::{text_filter, text_of, text_search, Column, Filter};

verus! {

/// Search by category name; no filter without a name.
pub fn name_cond(name: Option<String>) -> (f: Filter)
    ensures
        f@ == text_filter(Column::CategoryName, text_of(name)),
{
    text_search(Column::CategoryName, name)
}

} // verus!
