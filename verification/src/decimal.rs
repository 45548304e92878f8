//! The decimal type of money columns.

use vstd::prelude::*;

verus! {

/// Fixed-point decimals of the database's money columns; the library only
/// carries such values from a caller to a record.
#[verifier::external_type_specification]
#[verifier::external_body]
pub struct ExDecimal(sqlx::types::Decimal);

} // verus!
