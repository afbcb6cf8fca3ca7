//! The record type of the sample canister that ships with the tool.
//!
//! The repository carries a minimal canister whose interface the tool can
//! be pointed at; `User` is the record its endpoints return. The endpoint
//! glue itself (the canister framework's attribute macros and the Candid
//! derives) lives with the front end; this is the bare record the
//! endpoints' results are built from.

use vstd::prelude::*;

verus! {

/// A user record: a numeric identifier and a display name.
pub struct User {
    pub id: u64,
    pub name: String,
}

impl User {
    /// Builds the record field by field.
    pub fn new(id: u64, name: String) -> (r: Self)
        ensures
            r.id == id,
            r.name == name,
    {
        User { id, name }
    }
}

} // verus!
