//! The airport handle that the persistent store resolves from an IATA code.

use vstd::prelude::*;

verus! {

/// An opaque handle identifying an airport row in the persistent store.
#[derive(Debug, Clone, PartialEq, Eq, Structural)]
pub struct ModelAirport {
    pub airport_id: i64,
}

} // verus!
