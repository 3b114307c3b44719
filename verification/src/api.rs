//! The operations that clients are offered: two queries and one mutation,
//! each against the registry that a shared context holds.

use crate::record::{NewSrv, Srv};
use crate::store::{has_room, lookup, stored, Database};
use vstd::prelude::*;

verus! {

/// What every operation is handed: the registry that the process serves.
pub struct Context {
    pub db: Database,
}

/// Why an operation did not give a result.
#[derive(Clone, Copy, Debug, PartialEq, Eq, Structural)]
pub enum ApiError {
    /// The registry holds nothing under the identifier that was asked for.
    NotFound,
}

impl ApiError {
    /// The text under which the error is reported to a client.
    pub fn message(&self) -> (text: &'static str)
        ensures
            text@ == "not found"@,
    {
        match self {
            ApiError::NotFound => "not found",
        }
    }
}

/// The queries.
pub struct Query {}

impl Query {
    /// The version of the interface: always the same text, whatever the
    /// registry holds.
    #[allow(non_snake_case)]
    pub fn apiVersion() -> (version: &'static str)
        ensures
            version@ == "0.1.0"@,
    {
        "0.1.0"
    }

    /// The definition stored under `id`: exactly what was stored there, or
    /// `NotFound` where nothing is.
    pub fn srv(context: &Context, id: i32) -> (found: Result<Srv, ApiError>)
        ensures
            match found {
                Ok(srv) => lookup(context.db@, id as int) == Some(srv@),
                Err(error) => error == ApiError::NotFound && lookup(context.db@, id as int)
                    is None,
            },
    {
        match context.db.get(id) {
            Some(srv) => Ok(srv),
            None => Err(ApiError::NotFound),
        }
    }
}

/// The mutations.
pub struct Mutation {}

impl Mutation {
    /// Stores a definition made from `data` under the registry's next
    /// identifier and returns a copy of it. It never fails; a registry
    /// whose identifiers are used up is left out.
    #[allow(non_snake_case)]
    pub fn createSrv(context: &mut Context, data: NewSrv) -> (created: Result<Srv, ApiError>)
        requires
            has_room(old(context).db@),
        ensures
            final(context).db@ == stored(old(context).db@, data@),
            created matches Ok(srv) && srv@ == data@,
    {
        Ok(context.db.add(&data))
    }
}

} // verus!
