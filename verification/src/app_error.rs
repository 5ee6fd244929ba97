//! The crate's error taxonomy.

use vstd::prelude::*;

verus! {

/// Everything that can go wrong while classifying an identifier or
/// resolving a route.
///
/// The grammar variants carry the offending input in its canonical
/// (uppercased) form. `SqlxError` and `RedisError` carry the message of a
/// persistent-store or cache failure that a caller reported; `Internal`
/// carries the callsign of a stored row that violated the data-integrity
/// invariant at read time.
#[derive(Debug, Clone, PartialEq, Eq)]
pub enum AppError {
    Callsign(String),
    Internal(String),
    ModeS(String),
    NNumber(String),
    RedisError(String),
    SqlxError(String),
}

} // verus!
