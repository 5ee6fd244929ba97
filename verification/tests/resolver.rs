use flightroute::app_error::AppError;
use flightroute::callsign::Callsign;
use flightroute::model_airport::ModelAirport;
use flightroute::model_flightroute::{Airport, FlightrouteRow, ModelFlightroute};
use flightroute::resolver::{
    cache_key, find_start, find_step, FindProgress, LookupQuery, QueryOutcome, Stage,
};

fn sample_airport(icao: &str, iata: &str) -> Airport {
    Airport {
        country_iso_name: "GB".to_string(),
        country_name: "United Kingdom".to_string(),
        elevation: 83,
        iata_code: iata.to_string(),
        icao_code: icao.to_string(),
        latitude: 51_470_600,
        longitude: -461_900,
        municipality: "London".to_string(),
        name: "Heathrow".to_string(),
    }
}

fn sample_route(iata_key: Option<&str>, icao_key: Option<&str>) -> ModelFlightroute {
    ModelFlightroute {
        flightroute_id: 7,
        callsign: "BA123".to_string(),
        callsign_iata: iata_key.map(|s| s.to_string()),
        callsign_icao: icao_key.map(|s| s.to_string()),
        airline: None,
        origin: sample_airport("EGLL", "LHR"),
        midpoint: None,
        destination: sample_airport("EDDF", "FRA"),
    }
}

fn complete_row() -> FlightrouteRow {
    FlightrouteRow {
        flightroute_id: 7,
        callsign: "BA123".to_string(),
        callsign_iata: Some("BA123".to_string()),
        callsign_icao: Some("BAW123".to_string()),
        airline_name: Some("British Airways".to_string()),
        airline_country_name: Some("United Kingdom".to_string()),
        airline_country_iso_name: Some("GB".to_string()),
        airline_callsign: Some("SPEEDBIRD".to_string()),
        airline_icao: Some("BAW".to_string()),
        airline_iata: Some("BA".to_string()),
        origin_airport_country_iso_name: Some("GB".to_string()),
        origin_airport_country_name: Some("United Kingdom".to_string()),
        origin_airport_elevation: Some(83),
        origin_airport_iata_code: Some("LHR".to_string()),
        origin_airport_icao_code: Some("EGLL".to_string()),
        origin_airport_latitude: Some(51_470_600),
        origin_airport_longitude: Some(-461_900),
        origin_airport_municipality: Some("London".to_string()),
        origin_airport_name: Some("Heathrow".to_string()),
        midpoint_airport_country_iso_name: None,
        midpoint_airport_country_name: None,
        midpoint_airport_elevation: None,
        midpoint_airport_iata_code: None,
        midpoint_airport_icao_code: None,
        midpoint_airport_latitude: None,
        midpoint_airport_longitude: None,
        midpoint_airport_municipality: None,
        midpoint_airport_name: None,
        destination_airport_country_iso_name: Some("DE".to_string()),
        destination_airport_country_name: Some("Germany".to_string()),
        destination_airport_elevation: Some(364),
        destination_airport_iata_code: Some("FRA".to_string()),
        destination_airport_icao_code: Some("EDDF".to_string()),
        destination_airport_latitude: Some(50_033_300),
        destination_airport_longitude: Some(8_570_500),
        destination_airport_municipality: Some("Frankfurt".to_string()),
        destination_airport_name: Some("Frankfurt am Main".to_string()),
    }
}

#[test]
fn find_starts_with_the_strategy_of_the_shape() {
    let long = Callsign::validate("BAW123", false).unwrap();
    assert_eq!(
        find_start(&long),
        FindProgress::Query(
            Stage::Primary,
            LookupQuery::OrganizationLong("BAW".to_string(), "123".to_string())
        )
    );

    let short = Callsign::validate("BA123", false).unwrap();
    assert_eq!(
        find_start(&short),
        FindProgress::Query(
            Stage::Primary,
            LookupQuery::OrganizationShort("BA".to_string(), "123".to_string())
        )
    );

    let other = Callsign::validate("N123AB", true).unwrap();
    assert_eq!(
        find_start(&other),
        FindProgress::Query(Stage::Fallback, LookupQuery::Literal(other.clone()))
    );
}

#[test]
fn short_identity_falls_back_to_literal_match() {
    // No organization-level match, but a literal match on the concatenated
    // string: the fallback executes and returns the literal match.
    let short = Callsign::validate("BA123", false).unwrap();
    let route = sample_route(Some("BA123"), Some("BAW123"));

    let p1 = find_start(&short);
    assert!(matches!(p1, FindProgress::Query(Stage::Primary, _)));

    let p2 = find_step(&short, Stage::Primary, QueryOutcome::NotFound);
    assert_eq!(
        p2,
        FindProgress::Query(Stage::Fallback, LookupQuery::Literal(short.clone()))
    );
    if let FindProgress::Query(_, LookupQuery::Literal(c)) = &p2 {
        assert_eq!(c.display_form(), "BA123");
    }

    let p3 = find_step(&short, Stage::Fallback, QueryOutcome::Found(route.clone()));
    assert_eq!(p3, FindProgress::Done(Some(route)));
}

#[test]
fn primary_hit_ends_the_resolution() {
    let long = Callsign::validate("BAW123", false).unwrap();
    let route = sample_route(Some("BA123"), Some("BAW123"));
    assert_eq!(
        find_step(&long, Stage::Primary, QueryOutcome::Found(route.clone())),
        FindProgress::Done(Some(route))
    );
}

#[test]
fn primary_error_still_falls_back() {
    let long = Callsign::validate("BAW123", false).unwrap();
    assert_eq!(
        find_step(&long, Stage::Primary, QueryOutcome::Error("timeout".to_string())),
        FindProgress::Query(Stage::Fallback, LookupQuery::Literal(long.clone()))
    );
}

#[test]
fn fallback_miss_returns_none_and_fallback_error_aborts() {
    let other = Callsign::validate("N123AB", true).unwrap();
    assert_eq!(
        find_step(&other, Stage::Fallback, QueryOutcome::NotFound),
        FindProgress::Done(None)
    );
    assert_eq!(
        find_step(&other, Stage::Fallback, QueryOutcome::Error("timeout".to_string())),
        FindProgress::Abort(AppError::SqlxError("timeout".to_string()))
    );
}

#[test]
fn cache_key_prefixes_the_display_form() {
    assert_eq!(cache_key("BA123"), "callsign::BA123");
    assert_eq!(cache_key(""), "callsign::");
}

#[test]
fn update_plan_writes_endpoints_and_deletes_both_keys() {
    let route = sample_route(Some("BA123"), Some("BAW123"));
    let origin = ModelAirport { airport_id: 21 };
    let destination = ModelAirport { airport_id: 42 };
    let plan = route.update_plan(&origin, &destination);
    assert_eq!(plan.write.flightroute_id, 7);
    assert_eq!(plan.write.airport_origin_id, 21);
    assert_eq!(plan.write.airport_destination_id, 42);
    assert_eq!(
        plan.delete_keys,
        vec!["callsign::BA123".to_string(), "callsign::BAW123".to_string()]
    );
}

#[test]
fn update_plan_skips_absent_display_forms() {
    let only_icao = sample_route(None, Some("BAW123"));
    let origin = ModelAirport { airport_id: 21 };
    let destination = ModelAirport { airport_id: 42 };
    assert_eq!(
        only_icao.update_plan(&origin, &destination).delete_keys,
        vec!["callsign::BAW123".to_string()]
    );

    let neither = sample_route(None, None);
    assert!(neither.update_plan(&origin, &destination).delete_keys.is_empty());
}

#[test]
fn from_row_builds_the_logical_model() {
    let m = ModelFlightroute::from_row(complete_row()).unwrap();
    assert_eq!(m.flightroute_id, 7);
    assert_eq!(m.callsign, "BA123");
    assert_eq!(m.callsign_iata.as_deref(), Some("BA123"));
    assert_eq!(m.callsign_icao.as_deref(), Some("BAW123"));
    let airline = m.airline.expect("airline group present");
    assert_eq!(airline.name, "British Airways");
    assert_eq!(airline.icao.as_deref(), Some("BAW"));
    assert_eq!(m.origin.icao_code, "EGLL");
    assert_eq!(m.destination.icao_code, "EDDF");
    assert!(m.midpoint.is_none());
}

#[test]
fn from_row_rejects_a_null_origin_column() {
    let mut row = complete_row();
    row.origin_airport_iata_code = None;
    assert_eq!(
        ModelFlightroute::from_row(row),
        Err(AppError::Internal("BA123".to_string()))
    );
}

#[test]
fn from_row_rejects_a_null_destination_column() {
    let mut row = complete_row();
    row.destination_airport_latitude = None;
    assert_eq!(
        ModelFlightroute::from_row(row),
        Err(AppError::Internal("BA123".to_string()))
    );
}

#[test]
fn from_row_treats_partial_midpoint_as_absent() {
    let mut row = complete_row();
    row.midpoint_airport_icao_code = Some("EHAM".to_string());
    let m = ModelFlightroute::from_row(row).unwrap();
    assert!(m.midpoint.is_none());
}

#[test]
fn from_row_without_airline_name_has_no_airline() {
    let mut row = complete_row();
    row.airline_name = None;
    let m = ModelFlightroute::from_row(row).unwrap();
    assert!(m.airline.is_none());
}
