//! The roots of the GraphQL schema.
use vstd::prelude::*;

verus! {

/// The query object: all queries that the schema supports.
#[derive(Debug, Clone, Copy, PartialEq, Eq, Structural)]
pub struct Query;

/// The mutation object: all mutations that the schema supports.
#[derive(Debug, Clone, Copy, PartialEq, Eq, Structural)]
pub struct Mutation;

impl Query {
    /// The version of the API, which the `apiVersion` field returns.
    pub fn api_version(&self) -> (r: &'static str)
        ensures
            r@ == "1.0"@,
    {
        "1.0"
    }
}

} // verus!
