//! Sessions: the permissions that a session token carries.

use vstd::prelude::*;
use crate::queries::DbErrKind;

verus! {

/// The permissions that a position may grant.
#[derive(Clone, Copy, Debug, PartialEq, Eq, Structural)]
pub enum Permission {
    ManageEmpl,
    ManageProducts,
    ManageCategories,
    SellProducts,
    ManageLocations,
}

/// Whether a session holds a permission, from what the lookup of the
/// permission's flag for the session's token returned: only a live session
/// whose position has the flag set above zero holds it; a failed lookup, an
/// unknown or expired token, or a missing flag grants nothing.
pub fn can(fetched: Result<Option<i8>, DbErrKind>) -> (granted: bool)
    ensures
        granted == (fetched matches Ok(Some(flag)) && flag > 0),
{
    match fetched {
        Ok(Some(flag)) => flag > 0,
        _ => false,
    }
}

} // verus!
