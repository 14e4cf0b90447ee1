use orion_core::weather::parse_temperature_tenths;

#[test]
fn weather_parses_open_meteo_temperature() {
    assert_eq!(
        parse_temperature_tenths(r#"{"current":{"temperature_2m":-4.7}}"#),
        Some(-47)
    );
    assert_eq!(
        parse_temperature_tenths(r#"{"current":{"temperature_2m":12}}"#),
        Some(120)
    );
    assert_eq!(
        parse_temperature_tenths(
            r#"{"current_units":{"temperature_2m":"C"},"current":{"time":"2026-06-01T13:00","temperature_2m":18.4}}"#
        ),
        Some(184)
    );
}

#[test]
fn rejects_missing_or_malformed_temperature() {
    assert_eq!(parse_temperature_tenths(r#"{"current":{}}"#), None);
    assert_eq!(parse_temperature_tenths(r#"{"temperature_2m":null}"#), None);
}

#[test]
fn parses_leading_blanks_and_stops_at_first_tenth() {
    assert_eq!(parse_temperature_tenths("\"temperature_2m\": \t-0.25"), Some(-2));
    assert_eq!(parse_temperature_tenths("\"temperature_2m\":x,\"temperature_2m\":7"), Some(70));
}

#[test]
fn network_parses_open_meteo_temperature() {
    assert_eq!(parse_temperature_tenths(r#"{"current":{"temperature_2m":-4.7}}"#), Some(-47));
    assert_eq!(parse_temperature_tenths(r#"{"current":{"temperature_2m":12}}"#), Some(120));
    assert_eq!(
        parse_temperature_tenths(
            r#"{"current_units":{"temperature_2m":"C"},"current":{"time":"2026-06-01T13:00","temperature_2m":18.4}}"#
        ),
        Some(184)
    );
}
