//! The route resolver: the strategy selected by a callsign's shape, the
//! fallback state machine stepped on each query outcome, and the write and
//! cache invalidations an update performs.
//!
//! The persistent store and the cache are collaborators. A caller drives the
//! machine: it runs the query named by [`FindProgress::Query`] against the
//! store, reports the outcome through [`find_step`], and repeats until the
//! machine finishes. Likewise it executes an [`UpdatePlan`] by performing
//! the endpoint write and then deleting each listed cache key.

use vstd::prelude::*;
use vstd::string::StringExecFns;

use crate::app_error::AppError;
use crate::callsign::{spec_callsign_display, Callsign};
use crate::model_airport::ModelAirport;
use crate::model_flightroute::ModelFlightroute;

verus! {

/// One of the three query shapes the persistent store offers. The
/// organization variants carry the organization code and the flight-number
/// suffix; the literal variant asks for an exact match on the display form
/// of the carried identity.
#[derive(Debug, Clone, PartialEq, Eq)]
pub enum LookupQuery {
    OrganizationLong(String, String),
    OrganizationShort(String, String),
    Literal(Callsign),
}

/// Which stage of the fallback order a query belongs to: the
/// organization-coded attempt, or the literal last resort.
#[derive(Debug, Clone, Copy, PartialEq, Eq, Structural)]
pub enum Stage {
    Primary,
    Fallback,
}

/// What the persistent store reported for one query. An error carries the
/// store's message.
#[derive(Debug, Clone, PartialEq, Eq)]
pub enum QueryOutcome {
    Found(ModelFlightroute),
    NotFound,
    Error(String),
}

/// Where a resolution stands: a query still to run, a finished lookup, or
/// an abort with the error of a failed last-resort query.
#[derive(Debug, Clone, PartialEq, Eq)]
pub enum FindProgress {
    Query(Stage, LookupQuery),
    Done(Option<ModelFlightroute>),
    Abort(AppError),
}

/// The first query of a resolution, selected by the shape of the identity:
/// organization-long for an organization-long callsign, organization-short
/// for an organization-short one, and the literal strategy directly — with
/// no fallback behind it — for an unstructured one.
pub open spec fn spec_find_start(c: Callsign) -> FindProgress {
    match c {
        Callsign::Icao(x) => FindProgress::Query(
            Stage::Primary,
            LookupQuery::OrganizationLong(x.0, x.1),
        ),
        Callsign::Iata(x) => FindProgress::Query(
            Stage::Primary,
            LookupQuery::OrganizationShort(x.0, x.1),
        ),
        Callsign::Other(_) => FindProgress::Query(Stage::Fallback, LookupQuery::Literal(c)),
    }
}

/// The transition taken after a query's outcome. A hit ends the resolution
/// with the found route, whichever stage produced it. A miss — and equally a
/// store error — during the organization-coded stage falls back to the
/// literal strategy on the identity's display form. A miss during the
/// literal stage ends the resolution empty-handed, and an error there is
/// terminal: it aborts with a persistent-store error carrying the message.
pub open spec fn spec_find_step(c: Callsign, stage: Stage, outcome: QueryOutcome) -> FindProgress {
    match outcome {
        QueryOutcome::Found(r) => FindProgress::Done(Some(r)),
        QueryOutcome::NotFound => match stage {
            Stage::Primary => FindProgress::Query(Stage::Fallback, LookupQuery::Literal(c)),
            Stage::Fallback => FindProgress::Done(None),
        },
        QueryOutcome::Error(e) => match stage {
            Stage::Primary => FindProgress::Query(Stage::Fallback, LookupQuery::Literal(c)),
            Stage::Fallback => FindProgress::Abort(AppError::SqlxError(e)),
        },
    }
}

/// Begin resolving an identity: the query to run first.
pub fn find_start(c: &Callsign) -> (p: FindProgress)
    ensures
        p == spec_find_start(*c),
{
    match c {
        Callsign::Icao(x) => FindProgress::Query(
            Stage::Primary,
            LookupQuery::OrganizationLong(x.0.clone(), x.1.clone()),
        ),
        Callsign::Iata(x) => FindProgress::Query(
            Stage::Primary,
            LookupQuery::OrganizationShort(x.0.clone(), x.1.clone()),
        ),
        Callsign::Other(_) => FindProgress::Query(Stage::Fallback, LookupQuery::Literal(c.clone())),
    }
}

/// Advance the resolution of `c` after the store reported `outcome` for the
/// query of stage `stage`.
pub fn find_step(c: &Callsign, stage: Stage, outcome: QueryOutcome) -> (p: FindProgress)
    ensures
        p == spec_find_step(*c, stage, outcome),
{
    match outcome {
        QueryOutcome::Found(r) => FindProgress::Done(Some(r)),
        QueryOutcome::NotFound => match stage {
            Stage::Primary => FindProgress::Query(Stage::Fallback, LookupQuery::Literal(c.clone())),
            Stage::Fallback => FindProgress::Done(None),
        },
        QueryOutcome::Error(e) => match stage {
            Stage::Primary => FindProgress::Query(Stage::Fallback, LookupQuery::Literal(c.clone())),
            Stage::Fallback => FindProgress::Abort(AppError::SqlxError(e)),
        },
    }
}

/// The cache key under which a display-form callsign is stored.
pub open spec fn spec_cache_key(callsign_form: Seq<char>) -> Seq<char> {
    "callsign::"@ + callsign_form
}

/// Build the cache key for a display-form callsign.
pub fn cache_key(callsign_form: &str) -> (r: String)
    ensures
        r@ == spec_cache_key(callsign_form@),
{
    let mut r = String::from_str("callsign::");
    r.append(callsign_form);
    r
}

/// The endpoint write of an update: the route row addressed, and the
/// airport handles that become its origin and destination.
#[derive(Debug, Clone, PartialEq, Eq, Structural)]
pub struct EndpointWrite {
    pub flightroute_id: i64,
    pub airport_origin_id: i64,
    pub airport_destination_id: i64,
}

/// Everything an update performs: one endpoint write, followed by the
/// deletion of each listed cache key.
#[derive(Debug, Clone, PartialEq, Eq)]
pub struct UpdatePlan {
    pub write: EndpointWrite,
    pub delete_keys: Vec<String>,
}

/// The cache keys an update of this route deletes: the key of the
/// short-form display callsign and the key of the long-form one, each
/// exactly when the route carries that form.
pub open spec fn spec_invalidation_keys(m: ModelFlightroute) -> Seq<Seq<char>> {
    match (m.callsign_iata, m.callsign_icao) {
        (Some(a), Some(b)) => seq![spec_cache_key(a@), spec_cache_key(b@)],
        (Some(a), None) => seq![spec_cache_key(a@)],
        (None, Some(b)) => seq![spec_cache_key(b@)],
        (None, None) => Seq::empty(),
    }
}

impl ModelFlightroute {
    /// The actions an update of this route performs: write the new origin
    /// and destination to the route's row, then delete the cache entries of
    /// whichever display-form callsigns the route carries.
    pub fn update_plan(&self, origin: &ModelAirport, destination: &ModelAirport) -> (p: UpdatePlan)
        ensures
            p.write.flightroute_id == self.flightroute_id,
            p.write.airport_origin_id == origin.airport_id,
            p.write.airport_destination_id == destination.airport_id,
            p.delete_keys@.map_values(|k: String| k@) == spec_invalidation_keys(*self),
    {
        let mut delete_keys: Vec<String> = Vec::new();
        if let Some(iata) = self.callsign_iata.as_ref() {
            delete_keys.push(cache_key(iata.as_str()));
        }
        if let Some(icao) = self.callsign_icao.as_ref() {
            delete_keys.push(cache_key(icao.as_str()));
        }
        proof {
            assert(delete_keys@.map_values(|k: String| k@) =~= spec_invalidation_keys(*self));
        }
        UpdatePlan {
            write: EndpointWrite {
                flightroute_id: self.flightroute_id,
                airport_origin_id: origin.airport_id,
                airport_destination_id: destination.airport_id,
            },
            delete_keys,
        }
    }
}

/// A cache state after a sequence of key deletions.
pub open spec fn spec_remove_all(cache: Set<Seq<char>>, keys: Seq<Seq<char>>) -> Set<Seq<char>>
    decreases keys.len(),
{
    if keys.len() == 0 {
        cache
    } else {
        spec_remove_all(cache.remove(keys[0]), keys.drop_first())
    }
}

/// After an update's cache invalidation, both display-form keys of the
/// route are absent from the cache, whatever the cache held before.
pub proof fn lemma_invalidation_clears_display_keys(cache: Set<Seq<char>>, m: ModelFlightroute)
    ensures
        m.callsign_iata matches Some(a) ==> !spec_remove_all(
            cache,
            spec_invalidation_keys(m),
        ).contains(spec_cache_key(a@)),
        m.callsign_icao matches Some(b) ==> !spec_remove_all(
            cache,
            spec_invalidation_keys(m),
        ).contains(spec_cache_key(b@)),
{
    let keys = spec_invalidation_keys(m);
    match (m.callsign_iata, m.callsign_icao) {
        (Some(a), Some(b)) => {
            let k1 = spec_cache_key(a@);
            let k2 = spec_cache_key(b@);
            assert(keys.drop_first() =~= seq![k2]);
            assert(keys.drop_first().drop_first() =~= Seq::<Seq<char>>::empty());
            assert(spec_remove_all(cache, keys) == spec_remove_all(
                cache.remove(k1),
                keys.drop_first(),
            ));
            assert(spec_remove_all(cache.remove(k1), keys.drop_first()) == spec_remove_all(
                cache.remove(k1).remove(k2),
                keys.drop_first().drop_first(),
            ));
            assert(spec_remove_all(cache, keys) == cache.remove(k1).remove(k2));
        },
        (Some(a), None) => {
            let k1 = spec_cache_key(a@);
            assert(keys.drop_first() =~= Seq::<Seq<char>>::empty());
            assert(spec_remove_all(cache, keys) == spec_remove_all(
                cache.remove(k1),
                keys.drop_first(),
            ));
            assert(spec_remove_all(cache, keys) == cache.remove(k1));
        },
        (None, Some(b)) => {
            let k2 = spec_cache_key(b@);
            assert(keys.drop_first() =~= Seq::<Seq<char>>::empty());
            assert(spec_remove_all(cache, keys) == spec_remove_all(
                cache.remove(k2),
                keys.drop_first(),
            ));
            assert(spec_remove_all(cache, keys) == cache.remove(k2));
        },
        (None, None) => {},
    }
}

/// Deleting a key that the cache does not hold leaves the cache unchanged:
/// invalidation is a no-op on whichever display form was already absent.
pub proof fn lemma_delete_absent_key_noop(cache: Set<Seq<char>>, key: Seq<char>)
    requires
        !cache.contains(key),
    ensures
        cache.remove(key) == cache,
{
    assert(cache.remove(key) =~= cache);
}

/// The fallback law: for an organization-coded identity whose
/// organization-level query finds nothing, the machine runs the literal
/// strategy on the identity's display form, and a hit there ends the
/// resolution with that literal match.
pub proof fn lemma_fallback_returns_literal_match(c: Callsign, r: ModelFlightroute)
    requires
        c is Icao || c is Iata,
    ensures
        spec_find_start(c) matches FindProgress::Query(st, _) && st is Primary,
        spec_find_step(c, Stage::Primary, QueryOutcome::NotFound) == FindProgress::Query(
            Stage::Fallback,
            LookupQuery::Literal(c),
        ),
        spec_find_step(c, Stage::Fallback, QueryOutcome::Found(r)) == FindProgress::Done(Some(r)),
{
}

/// The error asymmetry of the fallback order: a store error during the
/// organization-coded attempt is treated as a miss and the literal strategy
/// is still tried, while an error during the literal attempt itself aborts
/// the resolution with that error.
pub proof fn lemma_primary_error_still_falls_back(c: Callsign, e: String)
    ensures
        spec_find_step(c, Stage::Primary, QueryOutcome::Error(e)) == FindProgress::Query(
            Stage::Fallback,
            LookupQuery::Literal(c),
        ),
        spec_find_step(c, Stage::Fallback, QueryOutcome::Error(e)) == FindProgress::Abort(
            AppError::SqlxError(e),
        ),
{
}

/// The literal query of a fallback asks for the concatenated display form
/// of the identity the resolution started from.
pub proof fn lemma_fallback_queries_display_form(c: Callsign)
    ensures
        spec_find_step(c, Stage::Primary, QueryOutcome::NotFound) matches FindProgress::Query(
            st,
            q,
        ) && st is Fallback && (q matches LookupQuery::Literal(c2) && spec_callsign_display(c2)
            == spec_callsign_display(c)),
{
}

} // verus!
