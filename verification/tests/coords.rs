use weather_gateway::coords::parse_coordinates;
use weather_gateway::errors::WeatherError;

#[test]
fn longitude_comes_first() {
    // The combined string carries longitude, then latitude.
    let c = parse_coordinates("40.5,50.2").unwrap();
    assert_eq!(c.longitude, "40.5");
    assert_eq!(c.latitude, "50.2");
}

#[test]
fn signs_and_integers_are_accepted() {
    let c = parse_coordinates("-4.75,+13").unwrap();
    assert_eq!(c.longitude, "-4.75");
    assert_eq!(c.latitude, "+13");
    let c = parse_coordinates("0,0").unwrap();
    assert_eq!(c.longitude, "0");
    assert_eq!(c.latitude, "0");
}

#[test]
fn out_of_bounds_values_pass_through() {
    // No range validation: values beyond physical bounds are accepted.
    let c = parse_coordinates("400.0,95.0").unwrap();
    assert_eq!(c.longitude, "400.0");
    assert_eq!(c.latitude, "95.0");
}

#[test]
fn extra_fields_are_ignored() {
    let c = parse_coordinates("1.5,2.5,junk").unwrap();
    assert_eq!(c.longitude, "1.5");
    assert_eq!(c.latitude, "2.5");
}

#[test]
fn missing_comma_is_malformed() {
    assert_eq!(parse_coordinates("40.5").unwrap_err(), WeatherError::MalformedCoordinates);
    assert_eq!(parse_coordinates("").unwrap_err(), WeatherError::MalformedCoordinates);
}

#[test]
fn non_numeric_fields_are_malformed() {
    assert_eq!(parse_coordinates("a,b").unwrap_err(), WeatherError::MalformedCoordinates);
    assert_eq!(parse_coordinates("40.5,").unwrap_err(), WeatherError::MalformedCoordinates);
    assert_eq!(parse_coordinates(",50.2").unwrap_err(), WeatherError::MalformedCoordinates);
    assert_eq!(parse_coordinates("40.,50.2").unwrap_err(), WeatherError::MalformedCoordinates);
    assert_eq!(parse_coordinates("40.5,.2").unwrap_err(), WeatherError::MalformedCoordinates);
    assert_eq!(parse_coordinates("4.0.5,1").unwrap_err(), WeatherError::MalformedCoordinates);
    assert_eq!(parse_coordinates("1e3,2").unwrap_err(), WeatherError::MalformedCoordinates);
    assert_eq!(parse_coordinates("+,1").unwrap_err(), WeatherError::MalformedCoordinates);
}

#[test]
fn error_messages_are_fixed() {
    assert_eq!(WeatherError::MalformedCoordinates.message(), "malformed coordinates");
    assert_eq!(WeatherError::UpstreamUnavailable.message(), "upstream weather provider unavailable");
    assert_eq!(WeatherError::MissingCredential.message(), "missing provider API key");
    assert_eq!(WeatherError::InvalidTimestamp.message(), "invalid timestamp in weather data");
    assert_eq!(WeatherError::LockContention.message(), "cache lock contention");
}
