use flightroute::app_error::AppError;
use flightroute::callsign::{Callsign, ModeS, NNumber};
use flightroute::text::valid_char;

#[test]
fn transponder_accepts_hex_and_uppercases() {
    let m = ModeS::validate("a1b2c3").unwrap();
    assert_eq!(m.as_str(), "A1B2C3");
    let m2 = ModeS::validate("A1B2C3").unwrap();
    assert_eq!(m, m2);
}

#[test]
fn transponder_accepts_all_letter_and_all_digit_codes() {
    assert_eq!(ModeS::validate("abcdef").unwrap().as_str(), "ABCDEF");
    assert_eq!(ModeS::validate("012345").unwrap().as_str(), "012345");
}

#[test]
fn transponder_rejects_wrong_length() {
    assert_eq!(
        ModeS::validate("a1b2c"),
        Err(AppError::ModeS("A1B2C".to_string()))
    );
    assert_eq!(
        ModeS::validate("a1b2c3d"),
        Err(AppError::ModeS("A1B2C3D".to_string()))
    );
    assert_eq!(ModeS::validate(""), Err(AppError::ModeS(String::new())));
}

#[test]
fn transponder_rejects_non_hex_characters() {
    assert_eq!(
        ModeS::validate("g12345"),
        Err(AppError::ModeS("G12345".to_string()))
    );
    assert_eq!(
        ModeS::validate("a1b2-3"),
        Err(AppError::ModeS("A1B2-3".to_string()))
    );
}

#[test]
fn transponder_classification_is_idempotent() {
    let first = ModeS::validate("a1b2c3").unwrap();
    let second = ModeS::validate(first.as_str()).unwrap();
    assert_eq!(first, second);
}

#[test]
fn registration_accepts_and_uppercases() {
    let n = NNumber::validate("n123ab").unwrap();
    assert_eq!(n.as_str(), "N123AB");
    assert_eq!(NNumber::validate("N1").unwrap().as_str(), "N1");
}

#[test]
fn registration_rejects_confusable_letters() {
    assert_eq!(
        NNumber::validate("N1I2"),
        Err(AppError::NNumber("N1I2".to_string()))
    );
    assert_eq!(
        NNumber::validate("n1o2"),
        Err(AppError::NNumber("N1O2".to_string()))
    );
}

#[test]
fn registration_rejects_bad_shape() {
    // must start with N
    assert_eq!(
        NNumber::validate("A1234"),
        Err(AppError::NNumber("A1234".to_string()))
    );
    // too short and too long
    assert_eq!(NNumber::validate("N"), Err(AppError::NNumber("N".to_string())));
    assert_eq!(
        NNumber::validate("N123456"),
        Err(AppError::NNumber("N123456".to_string()))
    );
}

#[test]
fn registration_classification_is_idempotent() {
    let first = NNumber::validate("n123ab").unwrap();
    let second = NNumber::validate(first.as_str()).unwrap();
    assert_eq!(first, second);
}

#[test]
fn callsign_three_letter_prefix_is_organization_long() {
    let c = Callsign::validate("BAW123", false).unwrap();
    assert_eq!(
        c,
        Callsign::Icao(("BAW".to_string(), "123".to_string()))
    );
}

#[test]
fn callsign_lowercase_input_is_uppercased() {
    let c = Callsign::validate("baw123", false).unwrap();
    assert_eq!(
        c,
        Callsign::Icao(("BAW".to_string(), "123".to_string()))
    );
}

#[test]
fn callsign_two_char_prefix_is_organization_short() {
    let c = Callsign::validate("BA123", false).unwrap();
    assert_eq!(c, Callsign::Iata(("BA".to_string(), "123".to_string())));
}

#[test]
fn callsign_registration_in_disguise_stays_unstructured() {
    // A valid tail number whose transponder conversion succeeds must not be
    // read as an organization-short callsign.
    let c = Callsign::validate("N123AB", true).unwrap();
    assert_eq!(c, Callsign::Other("N123AB".to_string()));
}

#[test]
fn callsign_registration_without_conversion_is_organization_short() {
    let c = Callsign::validate("N123AB", false).unwrap();
    assert_eq!(c, Callsign::Iata(("N1".to_string(), "23AB".to_string())));
}

#[test]
fn callsign_length_boundaries() {
    // length 3 and 9 always rejected
    assert_eq!(
        Callsign::validate("AB1", false),
        Err(AppError::Callsign("AB1".to_string()))
    );
    assert_eq!(
        Callsign::validate("ABCDEF123", false),
        Err(AppError::Callsign("ABCDEF123".to_string()))
    );
    // length 4 and 8 accepted when the characters are valid
    assert!(Callsign::validate("AB12", false).is_ok());
    assert!(Callsign::validate("AB123456", false).is_ok());
}

#[test]
fn callsign_rejects_invalid_characters() {
    assert_eq!(
        Callsign::validate("BA-123", false),
        Err(AppError::Callsign("BA-123".to_string()))
    );
}

#[test]
fn callsign_classification_is_idempotent() {
    let first = Callsign::validate("baw123", false).unwrap();
    let again = Callsign::validate(&first.display_form(), false).unwrap();
    assert_eq!(first, again);

    let short_first = Callsign::validate("ba123", false).unwrap();
    let short_again = Callsign::validate(&short_first.display_form(), false).unwrap();
    assert_eq!(short_first, short_again);
}

#[test]
fn display_form_concatenates_the_parts() {
    assert_eq!(
        Callsign::validate("BAW123", false).unwrap().display_form(),
        "BAW123"
    );
    assert_eq!(
        Callsign::validate("BA123", false).unwrap().display_form(),
        "BA123"
    );
    assert_eq!(
        Callsign::validate("N123AB", true).unwrap().display_form(),
        "N123AB"
    );
}

#[test]
fn valid_char_matches_the_grammar() {
    assert!(valid_char('0', 'f'));
    assert!(valid_char('a', 'f'));
    assert!(valid_char('F', 'f'));
    assert!(!valid_char('g', 'f'));
    assert!(valid_char('z', 'z'));
    assert!(!valid_char('-', 'z'));
}
