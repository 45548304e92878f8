use vstd::prelude::*;

pub mod accounts;
pub mod categories;
pub mod empl;
pub mod locations;
pub mod positions;
pub mod products;
pub mod sessions;
pub mod stock;

verus! {

/// The error that most commands answer with.
#[derive(Clone, Copy, Debug, PartialEq, Eq, Structural)]
pub enum BasicErr {
    Exists,
    NotFound,
    Internal,
    NotAuthorized,
    Invalid,
}

/// The kinds of database error that the library tells apart.
#[derive(Clone, Copy, Debug, PartialEq, Eq, Structural)]
pub enum DbErrKind {
    /// An insert did not create a record.
    RecordNotInserted,
    /// An update did not touch a record.
    RecordNotUpdated,
    /// A record that was looked up does not exist.
    RecordNotFound,
    /// Any other failure of the database or the connection.
    Other,
}

/// What a database error is answered with.
pub open spec fn basic_err_of(kind: DbErrKind) -> BasicErr {
    match kind {
        DbErrKind::RecordNotInserted => BasicErr::Exists,
        DbErrKind::RecordNotUpdated => BasicErr::NotFound,
        DbErrKind::RecordNotFound => BasicErr::NotFound,
        DbErrKind::Other => BasicErr::Internal,
    }
}

impl From<DbErrKind> for BasicErr {
    fn from(kind: DbErrKind) -> (err: BasicErr) {
        match kind {
            DbErrKind::RecordNotInserted => BasicErr::Exists,
            DbErrKind::RecordNotUpdated => BasicErr::NotFound,
            DbErrKind::RecordNotFound => BasicErr::NotFound,
            DbErrKind::Other => BasicErr::Internal,
        }
    }
}

impl vstd::std_specs::convert::FromSpecImpl<DbErrKind> for BasicErr {
    open spec fn obeys_from_spec() -> bool {
        true
    }

    open spec fn from_spec(kind: DbErrKind) -> BasicErr {
        basic_err_of(kind)
    }
}

/// The record that a lookup by id found; a failed lookup answers with its
/// error. A lookup that finds no row is a fault of the caller.
pub fn found<T>(fetched: Result<Option<T>, DbErrKind>) -> (r: Result<T, BasicErr>)
    requires
        !(fetched matches Ok(None)),
    ensures
        fetched matches Ok(Some(v)) ==> r == Ok::<T, BasicErr>(v),
        fetched matches Err(k) ==> r == Err::<T, BasicErr>(basic_err_of(k)),
{
    match fetched {
        Ok(Some(v)) => Ok(v),
        Ok(None) => Err(BasicErr::NotFound),
        Err(k) => Err(BasicErr::from(k)),
    }
}

/// The smallest and the largest value that an aggregate lookup found, or
/// `fallback` where the lookup failed. A lookup that finds no row is a fault
/// of the caller.
pub fn range_or<T>(fetched: Result<Option<(T, T)>, DbErrKind>, fallback: (T, T)) -> (r: (T, T))
    requires
        !(fetched matches Ok(None)),
    ensures
        fetched matches Ok(Some(v)) ==> r == v,
        fetched is Err ==> r == fallback,
{
    match fetched {
        Ok(Some(v)) => v,
        _ => fallback,
    }
}

/// A record that an insert did not create means it exists already; one that
/// an update did not touch, or that a lookup did not find, is not found; any
/// other failure is internal.
pub proof fn law_database_errors(kind: DbErrKind)
    ensures
        kind == DbErrKind::RecordNotInserted <==> basic_err_of(kind) == BasicErr::Exists,
        (kind == DbErrKind::RecordNotUpdated || kind == DbErrKind::RecordNotFound) <==> basic_err_of(kind)
            == BasicErr::NotFound,
        kind == DbErrKind::Other <==> basic_err_of(kind) == BasicErr::Internal,
{
}

} // verus!
