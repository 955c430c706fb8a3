use weather_gateway::icons::get_loxone_weather_icon;
use weather_gateway::model::HourlyObservation;

fn hourly(label: &str, cloud_milli: u32, precip_tenths: i64) -> HourlyObservation {
    HourlyObservation {
        epoch_seconds: 1688212800,
        condition_label: String::from(label),
        temperature_tenths: 234,
        apparent_temperature_tenths: 254,
        wind_speed: 5,
        wind_bearing: 180,
        wind_gust: 7,
        cloud_cover_milli: cloud_milli,
        precip_intensity_tenths: precip_tenths,
        precip_probability_milli: 50,
        pressure: 1012,
        humidity_milli: 350,
        uv_index_centi: 0,
    }
}

#[test]
fn clear_day_ignores_cloud_cover() {
    assert_eq!(get_loxone_weather_icon(&hourly("clear-day", 950, 0)), 1);
    assert_eq!(get_loxone_weather_icon(&hourly("clear-day", 0, 0)), 1);
    assert_eq!(get_loxone_weather_icon(&hourly("clear-night", 600, 0)), 1);
}

#[test]
fn cloudy_is_refined_by_cover() {
    assert_eq!(get_loxone_weather_icon(&hourly("cloudy", 600, 0)), 9);
    assert_eq!(get_loxone_weather_icon(&hourly("cloudy", 100, 0)), 1);
    assert_eq!(get_loxone_weather_icon(&hourly("cloudy", 125, 0)), 3);
    assert_eq!(get_loxone_weather_icon(&hourly("cloudy", 499, 0)), 3);
    assert_eq!(get_loxone_weather_icon(&hourly("cloudy", 750, 0)), 19);
    assert_eq!(get_loxone_weather_icon(&hourly("cloudy", 874, 0)), 19);
    assert_eq!(get_loxone_weather_icon(&hourly("cloudy", 875, 0)), 22);
}

#[test]
fn rain_is_refined_by_intensity() {
    assert_eq!(get_loxone_weather_icon(&hourly("rain", 0, 3)), 33);
    assert_eq!(get_loxone_weather_icon(&hourly("rain", 0, 20)), 23);
    assert_eq!(get_loxone_weather_icon(&hourly("rain", 0, 50)), 25);
    // Boundary: exactly 0.5 mm and exactly 4.0 mm stay plain rain.
    assert_eq!(get_loxone_weather_icon(&hourly("rain", 0, 5)), 23);
    assert_eq!(get_loxone_weather_icon(&hourly("rain", 0, 40)), 23);
    // No precipitation at all leaves the base rain code.
    assert_eq!(get_loxone_weather_icon(&hourly("rain", 0, 0)), 23);
}

#[test]
fn unknown_label_falls_into_cloud_bucket() {
    assert_eq!(get_loxone_weather_icon(&hourly("unknown-xyz", 900, 0)), 22);
    assert_eq!(get_loxone_weather_icon(&hourly("unknown-xyz", 0, 0)), 1);
}

#[test]
fn fixed_labels_map_literally() {
    assert_eq!(get_loxone_weather_icon(&hourly("snow", 0, 0)), 24);
    assert_eq!(get_loxone_weather_icon(&hourly("sleet", 0, 0)), 35);
    assert_eq!(get_loxone_weather_icon(&hourly("hail", 0, 0)), 35);
    assert_eq!(get_loxone_weather_icon(&hourly("fog", 0, 0)), 16);
    assert_eq!(get_loxone_weather_icon(&hourly("thunderstorm", 0, 0)), 28);
    assert_eq!(get_loxone_weather_icon(&hourly("partly-cloudy-day", 300, 0)), 3);
    assert_eq!(get_loxone_weather_icon(&hourly("partly-cloudy-night", 990, 0)), 22);
    // Matching is case-sensitive and literal.
    assert_eq!(get_loxone_weather_icon(&hourly("Rain", 0, 20)), 1);
}
