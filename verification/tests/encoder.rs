use weather_gateway::encoder::{create_weather_xml, get_current_temp};
use weather_gateway::errors::WeatherError;
use weather_gateway::model::{DailySun, HourlyObservation, StationMetadata, WeatherSnapshot};

fn one_hour_snapshot() -> WeatherSnapshot {
    WeatherSnapshot {
        latitude_centi: 4800,
        longitude_centi: 1500,
        utc_offset_deci_hours: 20,
        current_temperature_tenths: 234,
        sun: DailySun {
            // 2023-07-01, 06:00 and 20:00 UTC.
            sunrise_epoch_seconds: 1688191200,
            sunset_epoch_seconds: 1688241600,
        },
        hours: vec![HourlyObservation {
            // 2023-07-01T12:00:00Z.
            epoch_seconds: 1688212800,
            condition_label: String::from("cloudy"),
            temperature_tenths: 234,
            apparent_temperature_tenths: 254,
            wind_speed: 5,
            wind_bearing: 180,
            wind_gust: 7,
            cloud_cover_milli: 450,
            precip_intensity_tenths: 2,
            precip_probability_milli: 50,
            pressure: 1012,
            humidity_milli: 350,
            uv_index_centi: 0,
        }],
    }
}

fn station() -> StationMetadata {
    StationMetadata {
        city_name: String::from("Brussels"),
        country_name: String::from("Belgium"),
        above_sea_level: 70,
    }
}

const EXPECTED: &str = "<mb_metadata>\nid;name;longitude;latitude;height (m.asl.);country;timezone;utc-timedifference;sunrise;sunset;local date;weekday;local time;temperature(C);feeledTemperature(C);windspeed(km/h);winddirection(degr);wind gust(km/h);low clouds(%);medium clouds(%);high clouds(%);precipitation(mm);probability of Precip(%);snowFraction;sea level pressure(hPa);relative humidity(%);CAPE;picto-code;radiation (W/m2);\n</mb_metadata><valid_until>2099-06-30</valid_until>\n<station>\n;Brussels;15.00\u{b0}E;48.00\u{b0}N;70;Belgium;CEST;UTC+2.0;08:00;22:00;\n01.07.2023;Sat;14; 23.4; 25.4;  5;180;  7;  0; 45;  0;  0.2;  5;0.0;1012; 35;     0;3;   0;\n</station>\n";

#[test]
fn renders_the_whole_document_exactly() {
    let doc = create_weather_xml(&one_hour_snapshot(), &station()).unwrap();
    assert_eq!(doc, EXPECTED);
}

#[test]
fn hourly_icon_field_follows_the_cascade() {
    // Cloud cover 0.45 falls in the second bucket: icon 3.
    let doc = create_weather_xml(&one_hour_snapshot(), &station()).unwrap();
    let hourly_line = doc.lines().nth(5).unwrap();
    let fields: Vec<&str> = hourly_line.split(';').collect();
    assert_eq!(fields[17], "3");
}

#[test]
fn rendering_is_deterministic() {
    let a = create_weather_xml(&one_hour_snapshot(), &station()).unwrap();
    let b = create_weather_xml(&one_hour_snapshot(), &station()).unwrap();
    assert_eq!(a, b);
}

#[test]
fn western_and_southern_hemispheres() {
    let mut snapshot = one_hour_snapshot();
    snapshot.longitude_centi = -450;
    snapshot.latitude_centi = -7;
    let doc = create_weather_xml(&snapshot, &station()).unwrap();
    let station_line = doc.lines().nth(4).unwrap();
    assert!(station_line.contains(";4.50\u{b0}W;0.07\u{b0}S;"));
}

#[test]
fn negative_utc_offset_is_signed_and_shifts_the_clocks() {
    let mut snapshot = one_hour_snapshot();
    snapshot.utc_offset_deci_hours = -35;
    let doc = create_weather_xml(&snapshot, &station()).unwrap();
    // 06:00 and 20:00 UTC read 02:30 and 16:30 at offset -3.5.
    assert!(doc.contains(";CEST;UTC-3.5;02:30;16:30;"));
    // The 12:00 UTC observation reads 08:30, so its hour field is 08.
    assert!(doc.contains("\n01.07.2023;Sat;08;"));
}

#[test]
fn local_conversion_crosses_midnight() {
    let mut snapshot = one_hour_snapshot();
    // 2023-07-01T23:00:00Z at offset +2.0 reads 01:00 on the next day.
    snapshot.hours[0].epoch_seconds = 1688252400;
    let doc = create_weather_xml(&snapshot, &station()).unwrap();
    assert!(doc.contains("\n02.07.2023;Sun;01;"));
}

#[test]
fn out_of_range_sun_time_aborts_the_render() {
    let mut snapshot = one_hour_snapshot();
    // Within the snapshot's accepted range, far beyond any calendar date.
    snapshot.sun.sunrise_epoch_seconds = 4_000_000_000_000_000;
    let err = create_weather_xml(&snapshot, &station()).unwrap_err();
    assert_eq!(err, WeatherError::InvalidTimestamp);
}

#[test]
fn out_of_range_hourly_time_aborts_the_render() {
    let mut snapshot = one_hour_snapshot();
    snapshot.hours[0].epoch_seconds = -4_000_000_000_000_000;
    let err = create_weather_xml(&snapshot, &station()).unwrap_err();
    assert_eq!(err, WeatherError::InvalidTimestamp);
}

#[test]
fn empty_hourly_series_renders_header_and_footer_only() {
    let mut snapshot = one_hour_snapshot();
    snapshot.hours = Vec::new();
    let doc = create_weather_xml(&snapshot, &station()).unwrap();
    assert!(doc.ends_with(";08:00;22:00;\n</station>\n"));
    assert_eq!(doc.lines().count(), 6);
}

#[test]
fn negative_temperatures_keep_width_and_sign() {
    let mut snapshot = one_hour_snapshot();
    snapshot.hours[0].temperature_tenths = -5;
    snapshot.hours[0].apparent_temperature_tenths = -123;
    let doc = create_weather_xml(&snapshot, &station()).unwrap();
    let hourly_line = doc.lines().nth(5).unwrap();
    assert!(hourly_line.contains(";14; -0.5;-12.3;  5;"));
}

#[test]
fn current_temperature_text() {
    let mut snapshot = one_hour_snapshot();
    assert_eq!(get_current_temp(&snapshot), "23.4");
    snapshot.current_temperature_tenths = 230;
    assert_eq!(get_current_temp(&snapshot), "23");
    snapshot.current_temperature_tenths = -5;
    assert_eq!(get_current_temp(&snapshot), "-0.5");
    snapshot.current_temperature_tenths = 0;
    assert_eq!(get_current_temp(&snapshot), "0");
}
