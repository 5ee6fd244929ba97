//! Classification of raw flight identifiers (transponder codes, civil
//! registration numbers, callsigns) and resolution of a classified callsign
//! to a stored flight route through an ordered, fallback-driven lookup.
//!
//! The crate holds the decision logic only: parsing and classifying
//! identifiers, choosing the lookup strategy for an identity, stepping the
//! fallback state machine on each query outcome, translating nullable
//! storage rows into the logical route model, and deriving the write and the
//! cache invalidations that an update performs. The persistent store and the
//! cache themselves are collaborators that a caller drives with the values
//! this crate computes.

pub mod app_error;
pub mod callsign;
pub mod model_airport;
pub mod model_flightroute;
pub mod resolver;
pub mod text;
