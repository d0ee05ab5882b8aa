use marax_monitor::decode::parse_integer_field;
use marax_monitor::{decode, DecodeError, MachineMode, TelemetryReading};

#[test]
fn decodes_coffee_line() {
    let r = decode("C1.19,116,124,095,0560,0,0");
    assert_eq!(
        r,
        Ok(TelemetryReading {
            machine_mode: MachineMode::Coffee,
            steam_temperature: 116,
            target_steam_temperature: 124,
            hx_temperature: 95,
            countdown_boost_mode: 560,
            heating_element_on: false,
            pump_on: false,
        })
    );
}

#[test]
fn decodes_steam_line_with_pump_and_heating_on() {
    let r = decode("V1.00,100,100,090,0000,1,1").unwrap();
    assert_eq!(r.machine_mode, MachineMode::Steam);
    assert!(r.pump_on);
    assert!(r.heating_element_on);
    assert_eq!(r.steam_temperature, 100);
    assert_eq!(r.hx_temperature, 90);
    assert_eq!(r.countdown_boost_mode, 0);
}

#[test]
fn unknown_mode_fails() {
    assert_eq!(decode("X1.00,100,100,090,0000,0,0"), Err(DecodeError::UnknownMode));
}

#[test]
fn invalid_boolean_fails() {
    assert_eq!(decode("C1.00,100,100,090,0000,2,0"), Err(DecodeError::InvalidBoolean));
    assert_eq!(decode("C1.00,100,100,090,0000,0,-1"), Err(DecodeError::InvalidBoolean));
}

#[test]
fn wrong_field_count_fails() {
    assert_eq!(decode(""), Err(DecodeError::FieldCount));
    assert_eq!(decode("C1.19,116,124,095,0560,0"), Err(DecodeError::FieldCount));
    assert_eq!(decode("C1.19,116,124,095,0560,0,0,"), Err(DecodeError::FieldCount));
    assert_eq!(decode("X,,,,,,,"), Err(DecodeError::FieldCount));
}

#[test]
fn empty_mode_fails() {
    assert_eq!(decode(",116,124,095,0560,0,0"), Err(DecodeError::EmptyMode));
}

#[test]
fn numeric_fields_must_parse() {
    assert_eq!(decode("C1.19,abc,124,095,0560,0,0"), Err(DecodeError::Numeric));
    assert_eq!(decode("C1.19,116,124,095,,0,0"), Err(DecodeError::Numeric));
    assert_eq!(decode("C1.19,116,124,095,0560,x,0"), Err(DecodeError::Numeric));
    assert_eq!(decode("C1.19,116,124,095,0560,0,0\n"), Err(DecodeError::Numeric));
}

#[test]
fn flag_checked_before_later_field_parses() {
    assert_eq!(decode("C1.19,116,124,095,0560,2,x"), Err(DecodeError::InvalidBoolean));
}

#[test]
fn negative_values_are_accepted() {
    let r = decode("Cx,-5,+7,-0,9223372036854775807,1,0").unwrap();
    assert_eq!(r.steam_temperature, -5);
    assert_eq!(r.target_steam_temperature, 7);
    assert_eq!(r.hx_temperature, 0);
    assert_eq!(r.countdown_boost_mode, i64::MAX);
}

#[test]
fn integer_field_matches_std_parse() {
    let cases = [
        "0", "007", "-1", "+1", "-", "+", "", "12a", " 1", "9223372036854775807",
        "9223372036854775808", "-9223372036854775808", "-9223372036854775809",
        "99999999999999999999999999999999999999999", "--1", "1-",
    ];
    for c in cases.iter() {
        let bytes: Vec<u8> = c.as_bytes().to_vec();
        assert_eq!(parse_integer_field(&bytes), c.parse::<i64>().ok(), "field {:?}", c);
    }
}

#[test]
fn round_trip_of_well_formed_fields() {
    let fields = ["V", "-12", "0", "300", "12345", "1", "0"];
    let line = fields.join(",");
    let r = decode(&line).unwrap();
    assert_eq!(r.machine_mode, MachineMode::Steam);
    assert_eq!(r.steam_temperature, -12);
    assert_eq!(r.target_steam_temperature, 0);
    assert_eq!(r.hx_temperature, 300);
    assert_eq!(r.countdown_boost_mode, 12345);
    assert!(r.heating_element_on);
    assert!(!r.pump_on);
}

#[test]
fn non_ascii_mode_is_unknown() {
    assert_eq!(decode("é,1,2,3,4,0,0"), Err(DecodeError::UnknownMode));
}
