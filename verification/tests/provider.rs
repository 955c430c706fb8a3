use weather_gateway::provider::provider_url;

#[test]
fn url_carries_key_then_latitude_then_longitude() {
    assert_eq!(
        provider_url("demo-key", "50.2", "40.5"),
        "https://api.pirateweather.net/forecast/demo-key/50.2,40.5?&units=ca"
    );
}

#[test]
fn url_keeps_signed_coordinates_verbatim() {
    assert_eq!(
        provider_url("k", "-4.75", "+13"),
        "https://api.pirateweather.net/forecast/k/-4.75,+13?&units=ca"
    );
}
