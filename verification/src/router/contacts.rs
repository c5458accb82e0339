//! The contact routes' paging and search parameters.
use vstd::prelude::*;

verus! {

/// Paging of the contact list.
pub struct ListParams {
    pub limit: i64,
    pub offset: i64,
}

/// A contact search by name.
pub struct FindParams {
    pub name: String,
}

/// The page size when a request names none.
pub fn default_limit() -> (r: i64)
    ensures
        r == 200,
{
    200
}

} // verus!
