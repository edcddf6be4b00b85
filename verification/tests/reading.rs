use mqtt_core::error::BsError;
use mqtt_core::reading::{default_sensor, is_numeric_token, parse_sensor_reading};

#[test]
fn parses_string_encoded_fields() {
    let payload = b"{\"t\":\"21.1111\",\"p\":\"22.2222\",\"h\":\"23.3333\"}";
    let reading = parse_sensor_reading(payload).unwrap();
    assert_eq!(reading.temperature, b"21.1111".to_vec());
    assert_eq!(reading.pressure, b"22.2222".to_vec());
    assert_eq!(reading.humidity, b"23.3333".to_vec());
    assert_eq!(reading.sensor_id, b"outside-sensor".to_vec());
    assert_eq!(reading.timestamp, None);
    let h: f64 = String::from_utf8(reading.humidity).unwrap().parse().unwrap();
    assert_eq!(h, 23.3333);
}

#[test]
fn parses_number_encoded_fields() {
    let payload = b"{\"t\":21.5,\"p\":-1013,\"h\":4.0e1}";
    let reading = parse_sensor_reading(payload).unwrap();
    let t: f64 = String::from_utf8(reading.temperature).unwrap().parse().unwrap();
    let p: f64 = String::from_utf8(reading.pressure).unwrap().parse().unwrap();
    let h: f64 = String::from_utf8(reading.humidity).unwrap().parse().unwrap();
    assert_eq!(t, 21.5);
    assert_eq!(p, -1013.0);
    assert_eq!(h, 40.0);
}

#[test]
fn parses_optional_fields_and_whitespace() {
    let payload =
        b" { \"sensor_id\" : \"roof\" , \"t\" : \"1\" , \"p\" : \"2\" , \"h\" : \"3\" , \"timestamp\" : \"2024-01-01T00:00:00Z\" } ";
    let reading = parse_sensor_reading(payload).unwrap();
    assert_eq!(reading.sensor_id, b"roof".to_vec());
    assert_eq!(reading.timestamp, Some(b"2024-01-01T00:00:00Z".to_vec()));
}

#[test]
fn missing_humidity_fails_with_others_present() {
    let payload = b"{\"t\":\"21.1111\",\"p\":\"22.2222\"}";
    assert_eq!(parse_sensor_reading(payload), Err(BsError::Protocol));
}

#[test]
fn missing_humidity_fails_with_others_absent() {
    assert_eq!(parse_sensor_reading(b"{}"), Err(BsError::Protocol));
    assert_eq!(parse_sensor_reading(b"{\"h2\":\"1\"}"), Err(BsError::Protocol));
}

#[test]
fn missing_temperature_or_pressure_fails() {
    assert_eq!(
        parse_sensor_reading(b"{\"p\":\"2\",\"h\":\"3\"}"),
        Err(BsError::Protocol)
    );
    assert_eq!(
        parse_sensor_reading(b"{\"t\":\"1\",\"h\":\"3\"}"),
        Err(BsError::Protocol)
    );
}

#[test]
fn non_numeric_field_fails() {
    assert_eq!(
        parse_sensor_reading(b"{\"t\":\"warm\",\"p\":\"2\",\"h\":\"3\"}"),
        Err(BsError::Protocol)
    );
}

#[test]
fn duplicate_known_key_fails() {
    assert_eq!(
        parse_sensor_reading(b"{\"t\":\"1\",\"t\":\"4\",\"p\":\"2\",\"h\":\"3\"}"),
        Err(BsError::Protocol)
    );
}

#[test]
fn unknown_keys_are_ignored() {
    let payload = b"{\"t\":\"1\",\"voc\":7,\"p\":\"2\",\"note\":\"x\",\"h\":\"3\"}";
    let reading = parse_sensor_reading(payload).unwrap();
    assert_eq!(reading.temperature, b"1".to_vec());
}

#[test]
fn malformed_payloads_fail() {
    assert_eq!(parse_sensor_reading(b""), Err(BsError::Protocol));
    assert_eq!(parse_sensor_reading(b"garbage"), Err(BsError::Protocol));
    assert_eq!(
        parse_sensor_reading(b"{\"t\":\"1\",\"p\":\"2\",\"h\":\"3\""),
        Err(BsError::Protocol)
    );
    assert_eq!(
        parse_sensor_reading(b"{\"t\":\"1\",\"p\":\"2\",\"h\":\"3\"} x"),
        Err(BsError::Protocol)
    );
    assert_eq!(
        parse_sensor_reading(b"{\"t\":\"1\",\"p\":\"2\",\"h\":}"),
        Err(BsError::Protocol)
    );
}

#[test]
fn numeric_token_language() {
    assert!(is_numeric_token(b"21.1111"));
    assert!(is_numeric_token(b"-0.5"));
    assert!(is_numeric_token(b"+3"));
    assert!(is_numeric_token(b"4.0e1"));
    assert!(is_numeric_token(b"4E-2"));
    assert!(!is_numeric_token(b""));
    assert!(!is_numeric_token(b"-"));
    assert!(!is_numeric_token(b"1."));
    assert!(!is_numeric_token(b".5"));
    assert!(!is_numeric_token(b"1e"));
    assert!(!is_numeric_token(b"warm"));
    assert!(!is_numeric_token(b"1 2"));
}

#[test]
fn default_sensor_name() {
    assert_eq!(default_sensor(), b"outside-sensor".to_vec());
}
