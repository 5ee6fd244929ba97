//! The flight-route data model: the nullable row shape that the persistent
//! store returns, the logical route record, and the translation between the
//! two.

use vstd::prelude::*;

use crate::app_error::AppError;

verus! {

/// A fully described airport, as the logical model sees it.
///
/// Latitude and longitude are carried in microdegrees (degrees scaled by one
/// million), so that the record stays within plain integer values.
#[derive(Debug, Clone, PartialEq, Eq)]
pub struct Airport {
    pub country_iso_name: String,
    pub country_name: String,
    pub elevation: i32,
    pub iata_code: String,
    pub icao_code: String,
    pub latitude: i64,
    pub longitude: i64,
    pub municipality: String,
    pub name: String,
}

/// The organization a route was resolved through, present only when
/// resolution went through an organization-coded strategy.
#[derive(Debug, Clone, PartialEq, Eq)]
pub struct Airline {
    pub name: String,
    pub country_name: Option<String>,
    pub country_iso_name: Option<String>,
    pub callsign: Option<String>,
    pub icao: Option<String>,
    pub iata: Option<String>,
}

/// A route row as the persistent store hands it over: the scalar sub-fields
/// of every airport may be null even where the logical model requires them,
/// and the airline columns are null outside the organization-coded
/// strategies.
#[derive(Debug, Clone, PartialEq, Eq)]
pub struct FlightrouteRow {
    pub flightroute_id: i64,
    pub callsign: String,
    pub callsign_iata: Option<String>,
    pub callsign_icao: Option<String>,
    pub airline_name: Option<String>,
    pub airline_country_name: Option<String>,
    pub airline_country_iso_name: Option<String>,
    pub airline_callsign: Option<String>,
    pub airline_icao: Option<String>,
    pub airline_iata: Option<String>,
    pub origin_airport_country_iso_name: Option<String>,
    pub origin_airport_country_name: Option<String>,
    pub origin_airport_elevation: Option<i32>,
    pub origin_airport_iata_code: Option<String>,
    pub origin_airport_icao_code: Option<String>,
    pub origin_airport_latitude: Option<i64>,
    pub origin_airport_longitude: Option<i64>,
    pub origin_airport_municipality: Option<String>,
    pub origin_airport_name: Option<String>,
    pub midpoint_airport_country_iso_name: Option<String>,
    pub midpoint_airport_country_name: Option<String>,
    pub midpoint_airport_elevation: Option<i32>,
    pub midpoint_airport_iata_code: Option<String>,
    pub midpoint_airport_icao_code: Option<String>,
    pub midpoint_airport_latitude: Option<i64>,
    pub midpoint_airport_longitude: Option<i64>,
    pub midpoint_airport_municipality: Option<String>,
    pub midpoint_airport_name: Option<String>,
    pub destination_airport_country_iso_name: Option<String>,
    pub destination_airport_country_name: Option<String>,
    pub destination_airport_elevation: Option<i32>,
    pub destination_airport_iata_code: Option<String>,
    pub destination_airport_icao_code: Option<String>,
    pub destination_airport_latitude: Option<i64>,
    pub destination_airport_longitude: Option<i64>,
    pub destination_airport_municipality: Option<String>,
    pub destination_airport_name: Option<String>,
}

/// A resolved route: the callsign that matched, the derived display-form
/// callsigns used as cache keys, the optional organization, and the airports
/// of the route. Origin and destination are non-nullable in the logical
/// model; a midpoint is optional.
#[derive(Debug, Clone, PartialEq, Eq)]
pub struct ModelFlightroute {
    pub flightroute_id: i64,
    pub callsign: String,
    pub callsign_iata: Option<String>,
    pub callsign_icao: Option<String>,
    pub airline: Option<Airline>,
    pub origin: Airport,
    pub midpoint: Option<Airport>,
    pub destination: Airport,
}

/// The airport a group of nullable columns describes: present exactly when
/// every column of the group is present.
pub open spec fn spec_airport_of(
    country_iso_name: Option<String>,
    country_name: Option<String>,
    elevation: Option<i32>,
    iata_code: Option<String>,
    icao_code: Option<String>,
    latitude: Option<i64>,
    longitude: Option<i64>,
    municipality: Option<String>,
    name: Option<String>,
) -> Option<Airport> {
    if country_iso_name is Some && country_name is Some && elevation is Some && iata_code is Some
        && icao_code is Some && latitude is Some && longitude is Some && municipality is Some
        && name is Some {
        Some(
            Airport {
                country_iso_name: country_iso_name->0,
                country_name: country_name->0,
                elevation: elevation->0,
                iata_code: iata_code->0,
                icao_code: icao_code->0,
                latitude: latitude->0,
                longitude: longitude->0,
                municipality: municipality->0,
                name: name->0,
            },
        )
    } else {
        None
    }
}

/// The airline a row describes: present exactly when the airline name
/// column is present; the remaining columns stay optional.
pub open spec fn spec_airline_of(
    name: Option<String>,
    country_name: Option<String>,
    country_iso_name: Option<String>,
    callsign: Option<String>,
    icao: Option<String>,
    iata: Option<String>,
) -> Option<Airline> {
    if name is Some {
        Some(
            Airline {
                name: name->0,
                country_name: country_name,
                country_iso_name: country_iso_name,
                callsign: callsign,
                icao: icao,
                iata: iata,
            },
        )
    } else {
        None
    }
}

/// The origin airport group of a row.
pub open spec fn spec_row_origin(row: FlightrouteRow) -> Option<Airport> {
    spec_airport_of(
        row.origin_airport_country_iso_name,
        row.origin_airport_country_name,
        row.origin_airport_elevation,
        row.origin_airport_iata_code,
        row.origin_airport_icao_code,
        row.origin_airport_latitude,
        row.origin_airport_longitude,
        row.origin_airport_municipality,
        row.origin_airport_name,
    )
}

/// The midpoint airport group of a row.
pub open spec fn spec_row_midpoint(row: FlightrouteRow) -> Option<Airport> {
    spec_airport_of(
        row.midpoint_airport_country_iso_name,
        row.midpoint_airport_country_name,
        row.midpoint_airport_elevation,
        row.midpoint_airport_iata_code,
        row.midpoint_airport_icao_code,
        row.midpoint_airport_latitude,
        row.midpoint_airport_longitude,
        row.midpoint_airport_municipality,
        row.midpoint_airport_name,
    )
}

/// The destination airport group of a row.
pub open spec fn spec_row_destination(row: FlightrouteRow) -> Option<Airport> {
    spec_airport_of(
        row.destination_airport_country_iso_name,
        row.destination_airport_country_name,
        row.destination_airport_elevation,
        row.destination_airport_iata_code,
        row.destination_airport_icao_code,
        row.destination_airport_latitude,
        row.destination_airport_longitude,
        row.destination_airport_municipality,
        row.destination_airport_name,
    )
}

/// The airline group of a row.
pub open spec fn spec_row_airline(row: FlightrouteRow) -> Option<Airline> {
    spec_airline_of(
        row.airline_name,
        row.airline_country_name,
        row.airline_country_iso_name,
        row.airline_callsign,
        row.airline_icao,
        row.airline_iata,
    )
}

/// Build an airport from a group of nullable columns, present exactly when
/// every column is.
fn airport_of(
    country_iso_name: Option<String>,
    country_name: Option<String>,
    elevation: Option<i32>,
    iata_code: Option<String>,
    icao_code: Option<String>,
    latitude: Option<i64>,
    longitude: Option<i64>,
    municipality: Option<String>,
    name: Option<String>,
) -> (a: Option<Airport>)
    ensures
        a == spec_airport_of(
            country_iso_name,
            country_name,
            elevation,
            iata_code,
            icao_code,
            latitude,
            longitude,
            municipality,
            name,
        ),
{
    match (
        country_iso_name,
        country_name,
        elevation,
        iata_code,
        icao_code,
        latitude,
        longitude,
        municipality,
        name,
    ) {
        (
            Some(country_iso_name),
            Some(country_name),
            Some(elevation),
            Some(iata_code),
            Some(icao_code),
            Some(latitude),
            Some(longitude),
            Some(municipality),
            Some(name),
        ) => Some(
            Airport {
                country_iso_name,
                country_name,
                elevation,
                iata_code,
                icao_code,
                latitude,
                longitude,
                municipality,
                name,
            },
        ),
        _ => None,
    }
}

impl ModelFlightroute {
    /// Translate a storage row into the logical model. The origin and the
    /// destination must be complete: a row where either group has a null
    /// column violates the logical non-null invariant and surfaces a
    /// data-integrity error carrying the row's callsign. A partially null
    /// midpoint or airline group is treated as absent rather than an error.
    pub fn from_row(row: FlightrouteRow) -> (r: Result<ModelFlightroute, AppError>)
        ensures
            match r {
                Ok(m) => spec_row_origin(row) is Some && spec_row_destination(row) is Some && m
                    == (ModelFlightroute {
                    flightroute_id: row.flightroute_id,
                    callsign: row.callsign,
                    callsign_iata: row.callsign_iata,
                    callsign_icao: row.callsign_icao,
                    airline: spec_row_airline(row),
                    origin: spec_row_origin(row)->0,
                    midpoint: spec_row_midpoint(row),
                    destination: spec_row_destination(row)->0,
                }),
                Err(e) => (spec_row_origin(row) is None || spec_row_destination(row) is None) && (
                e matches AppError::Internal(t) && t == row.callsign),
            },
    {
        let FlightrouteRow {
            flightroute_id,
            callsign,
            callsign_iata,
            callsign_icao,
            airline_name,
            airline_country_name,
            airline_country_iso_name,
            airline_callsign,
            airline_icao,
            airline_iata,
            origin_airport_country_iso_name,
            origin_airport_country_name,
            origin_airport_elevation,
            origin_airport_iata_code,
            origin_airport_icao_code,
            origin_airport_latitude,
            origin_airport_longitude,
            origin_airport_municipality,
            origin_airport_name,
            midpoint_airport_country_iso_name,
            midpoint_airport_country_name,
            midpoint_airport_elevation,
            midpoint_airport_iata_code,
            midpoint_airport_icao_code,
            midpoint_airport_latitude,
            midpoint_airport_longitude,
            midpoint_airport_municipality,
            midpoint_airport_name,
            destination_airport_country_iso_name,
            destination_airport_country_name,
            destination_airport_elevation,
            destination_airport_iata_code,
            destination_airport_icao_code,
            destination_airport_latitude,
            destination_airport_longitude,
            destination_airport_municipality,
            destination_airport_name,
        } = row;
        let origin = airport_of(
            origin_airport_country_iso_name,
            origin_airport_country_name,
            origin_airport_elevation,
            origin_airport_iata_code,
            origin_airport_icao_code,
            origin_airport_latitude,
            origin_airport_longitude,
            origin_airport_municipality,
            origin_airport_name,
        );
        let midpoint = airport_of(
            midpoint_airport_country_iso_name,
            midpoint_airport_country_name,
            midpoint_airport_elevation,
            midpoint_airport_iata_code,
            midpoint_airport_icao_code,
            midpoint_airport_latitude,
            midpoint_airport_longitude,
            midpoint_airport_municipality,
            midpoint_airport_name,
        );
        let destination = airport_of(
            destination_airport_country_iso_name,
            destination_airport_country_name,
            destination_airport_elevation,
            destination_airport_iata_code,
            destination_airport_icao_code,
            destination_airport_latitude,
            destination_airport_longitude,
            destination_airport_municipality,
            destination_airport_name,
        );
        let airline = match airline_name {
            Some(name) => Some(
                Airline {
                    name,
                    country_name: airline_country_name,
                    country_iso_name: airline_country_iso_name,
                    callsign: airline_callsign,
                    icao: airline_icao,
                    iata: airline_iata,
                },
            ),
            None => None,
        };
        match (origin, destination) {
            (Some(origin), Some(destination)) => Ok(
                ModelFlightroute {
                    flightroute_id,
                    callsign,
                    callsign_iata,
                    callsign_icao,
                    airline,
                    origin,
                    midpoint,
                    destination,
                },
            ),
            _ => Err(AppError::Internal(callsign)),
        }
    }
}

} // verus!
