//! The wire-format encoder: renders a weather snapshot and station metadata
//! into the fixed-width delimited text document the downstream controller
//! parses. The output is byte-for-byte a function of its inputs; the exact
//! character sequence is given by [`spec_render`]. Sun times and the hourly
//! date, weekday and hour are displayed in the station's timezone: each UTC
//! epoch is shifted by the snapshot's offset before the calendar
//! conversion.

use vstd::prelude::*;
use vstd::seq_lib::lemma_concat_associative;
use crate::errors::WeatherError;
use crate::icons::get_loxone_weather_icon;
use crate::icons::spec_icon;
use crate::model::HourlyObservation;
use crate::model::StationMetadata;
use crate::model::WeatherSnapshot;
use crate::model::MAX_OFFSET_MAGNITUDE_DECI;
use crate::textfmt::centi_text;
use crate::textfmt::dec_digits;
use crate::textfmt::fmt_centi;
use crate::textfmt::fmt_i64;
use crate::textfmt::fmt_i64_w;
use crate::textfmt::fmt_signed_tenths;
use crate::textfmt::fmt_tenths_w;
use crate::textfmt::fmt_u64;
use crate::textfmt::int_text;
use crate::textfmt::padded;
use crate::textfmt::signed_tenths_text;
use crate::textfmt::tenths_text;
use crate::timefmt::clock_text;
use crate::timefmt::day_stamp_of;
use crate::timefmt::format_clock;
use crate::timefmt::format_day_stamp;
use crate::timefmt::hour_of;
use crate::timefmt::local_instant;
use crate::timefmt::minute_of;
use crate::timefmt::ts_valid;

verus! {

/// A fraction given in thousandths of 1, as a whole percentage
/// (rounded to the nearest, halves away from zero).
pub open spec fn percent_of_milli(m: int) -> int {
    (m + 5) / 10
}

/// The magnitude of `v`.
pub open spec fn abs_of(v: int) -> int {
    if v < 0 {
        -v
    } else {
        v
    }
}

/// The hemisphere letter for a longitude: east when non-negative.
pub open spec fn ew_of(lon_centi: int) -> Seq<char> {
    if lon_centi < 0 {
        "W"@
    } else {
        "E"@
    }
}

/// The hemisphere letter for a latitude: north when non-negative.
pub open spec fn ns_of(lat_centi: int) -> Seq<char> {
    if lat_centi < 0 {
        "S"@
    } else {
        "N"@
    }
}

/// The fixed metadata block that opens every document: the column-name
/// header, the validity marker with its constant expiry date, and the
/// opening station marker.
pub open spec fn header_text() -> Seq<char> {
    "<mb_metadata>\n"@
        + "id;name;longitude;latitude;height (m.asl.);country;timezone;utc-timedifference;sunrise;sunset;local date;weekday;local time;temperature(C);feeledTemperature(C);windspeed(km/h);winddirection(degr);wind gust(km/h);low clouds(%);medium clouds(%);high clouds(%);precipitation(mm);probability of Precip(%);snowFraction;sea level pressure(hPa);relative humidity(%);CAPE;picto-code;radiation (W/m2);\n"@
        + "</mb_metadata><valid_until>"@ + "2099-06-30"@ + "</valid_until>\n"@ + "<station>\n"@
}

/// The sunrise instant shifted into the display timezone.
pub open spec fn local_sunrise(snapshot: WeatherSnapshot) -> int {
    local_instant(snapshot.sun.sunrise_epoch_seconds as int, snapshot.utc_offset_deci_hours as int)
}

/// The sunset instant shifted into the display timezone.
pub open spec fn local_sunset(snapshot: WeatherSnapshot) -> int {
    local_instant(snapshot.sun.sunset_epoch_seconds as int, snapshot.utc_offset_deci_hours as int)
}

/// The single station-location line: city, the two coordinates with their
/// hemisphere letters, elevation, country, the fixed timezone abbreviation,
/// the signed UTC offset, and the local sunrise and sunset clocks.
pub open spec fn station_line_text(snapshot: WeatherSnapshot, meta: StationMetadata) -> Seq<
    char,
> {
    ";"@ + meta.city_name@ + ";"@ + centi_text(abs_of(snapshot.longitude_centi as int) as nat)
        + "\u{b0}"@ + ew_of(snapshot.longitude_centi as int) + ";"@ + centi_text(
        abs_of(snapshot.latitude_centi as int) as nat,
    ) + "\u{b0}"@ + ns_of(snapshot.latitude_centi as int) + ";"@ + dec_digits(
        meta.above_sea_level as nat,
    ) + ";"@ + meta.country_name@ + ";CEST;UTC"@ + signed_tenths_text(
        snapshot.utc_offset_deci_hours as int,
    ) + ";"@ + clock_text(
        hour_of(local_sunrise(snapshot)),
        minute_of(local_sunrise(snapshot)),
    ) + ";"@ + clock_text(
        hour_of(local_sunset(snapshot)),
        minute_of(local_sunset(snapshot)),
    ) + ";\n"@
}

/// One hourly row: the local-time day stamp, the numeric fields in their
/// fixed order, widths and precisions, the constant placeholder fields,
/// the icon code, and the UV index, each terminated by a semicolon.
pub open spec fn hourly_line_text(h: HourlyObservation, offset_deci_hours: int) -> Seq<char> {
    day_stamp_of(local_instant(h.epoch_seconds as int, offset_deci_hours)) + ";"@ + padded(
        tenths_text(h.temperature_tenths as int),
        5,
    ) + ";"@ + padded(tenths_text(h.apparent_temperature_tenths as int), 5) + ";"@ + padded(
        int_text(h.wind_speed as int),
        3,
    ) + ";"@ + padded(int_text(h.wind_bearing as int), 3) + ";"@ + padded(
        int_text(h.wind_gust as int),
        3,
    ) + ";"@ + "  0;"@ + padded(int_text(percent_of_milli(h.cloud_cover_milli as int)), 3) + ";"@
        + "  0;"@ + padded(tenths_text(h.precip_intensity_tenths as int), 5) + ";"@ + padded(
        int_text(percent_of_milli(h.precip_probability_milli as int)),
        3,
    ) + ";"@ + "0.0;"@ + padded(int_text(h.pressure as int), 4) + ";"@ + padded(
        int_text(percent_of_milli(h.humidity_milli as int)),
        3,
    ) + ";"@ + "     0;"@ + int_text(
        spec_icon(h.condition_label@, h.cloud_cover_milli as int, h.precip_intensity_tenths as int),
    ) + ";"@ + padded(int_text(h.uv_index_centi as int), 4) + ";\n"@
}

/// All hourly rows, in snapshot order.
pub open spec fn hourly_lines_text(hours: Seq<HourlyObservation>, offset_deci_hours: int) -> Seq<
    char,
>
    decreases hours.len(),
{
    if hours.len() == 0 {
        Seq::empty()
    } else {
        hourly_lines_text(hours.drop_last(), offset_deci_hours) + hourly_line_text(
            hours.last(),
            offset_deci_hours,
        )
    }
}

/// Whether every instant of the snapshot, shifted into the display
/// timezone, is representable as a calendar date. Rendering succeeds
/// exactly on such snapshots.
pub open spec fn all_ts_valid(snapshot: WeatherSnapshot) -> bool {
    &&& ts_valid(local_sunrise(snapshot))
    &&& ts_valid(local_sunset(snapshot))
    &&& forall|i: int|
        0 <= i < snapshot.hours@.len() ==> ts_valid(
            local_instant(
                (#[trigger] snapshot.hours@[i]).epoch_seconds as int,
                snapshot.utc_offset_deci_hours as int,
            ),
        )
}

/// The whole document: header block, station line, the hourly rows, and
/// the closing station marker.
pub open spec fn spec_render(snapshot: WeatherSnapshot, meta: StationMetadata) -> Seq<char> {
    header_text() + station_line_text(snapshot, meta) + hourly_lines_text(
        snapshot.hours@,
        snapshot.utc_offset_deci_hours as int,
    ) + "</station>\n"@
}

/// One hourly row as text; nothing when the row's display-timezone
/// instant is out of the calendar range.
fn render_hourly_line(h: &HourlyObservation, offset_deci_hours: i64) -> (r: Option<String>)
    requires
        h.wf(),
        -MAX_OFFSET_MAGNITUDE_DECI <= offset_deci_hours <= MAX_OFFSET_MAGNITUDE_DECI,
    ensures
        r is Some <==> ts_valid(local_instant(h.epoch_seconds as int, offset_deci_hours as int)),
        r matches Some(s) ==> s@ == hourly_line_text(*h, offset_deci_hours as int),
{
    let stamp = match format_day_stamp(h.epoch_seconds + 360 * offset_deci_hours) {
        Some(s) => s,
        None => {
            return None;
        },
    };
    let icon_id = get_loxone_weather_icon(h);
    let mut line = stamp;
    line.append(";");
    line.append(fmt_tenths_w(h.temperature_tenths, 5).as_str());
    line.append(";");
    line.append(fmt_tenths_w(h.apparent_temperature_tenths, 5).as_str());
    line.append(";");
    line.append(fmt_i64_w(h.wind_speed, 3).as_str());
    line.append(";");
    line.append(fmt_i64_w(h.wind_bearing, 3).as_str());
    line.append(";");
    line.append(fmt_i64_w(h.wind_gust, 3).as_str());
    line.append(";");
    line.append("  0;");
    line.append(fmt_i64_w(((h.cloud_cover_milli + 5) / 10) as i64, 3).as_str());
    line.append(";");
    line.append("  0;");
    line.append(fmt_tenths_w(h.precip_intensity_tenths, 5).as_str());
    line.append(";");
    line.append(fmt_i64_w(((h.precip_probability_milli + 5) / 10) as i64, 3).as_str());
    line.append(";");
    line.append("0.0;");
    line.append(fmt_i64_w(h.pressure, 4).as_str());
    line.append(";");
    line.append(fmt_i64_w(((h.humidity_milli + 5) / 10) as i64, 3).as_str());
    line.append(";");
    line.append("     0;");
    line.append(fmt_i64(icon_id as i64).as_str());
    line.append(";");
    line.append(fmt_i64_w(h.uv_index_centi, 4).as_str());
    line.append(";\n");
    Some(line)
}

/// The station-location line as text; nothing when a sun time's
/// display-timezone instant is out of the calendar range.
fn render_station_line(snapshot: &WeatherSnapshot, meta: &StationMetadata) -> (r: Option<
    String,
>)
    requires
        snapshot.wf(),
    ensures
        r is Some <==> ts_valid(local_sunrise(*snapshot)) && ts_valid(local_sunset(*snapshot)),
        r matches Some(s) ==> s@ == station_line_text(*snapshot, *meta),
{
    let sunrise = match format_clock(
        snapshot.sun.sunrise_epoch_seconds + 360 * snapshot.utc_offset_deci_hours,
    ) {
        Some(s) => s,
        None => {
            return None;
        },
    };
    let sunset = match format_clock(
        snapshot.sun.sunset_epoch_seconds + 360 * snapshot.utc_offset_deci_hours,
    ) {
        Some(s) => s,
        None => {
            return None;
        },
    };
    let lon_mag: u64 = if snapshot.longitude_centi < 0 {
        (-snapshot.longitude_centi) as u64
    } else {
        snapshot.longitude_centi as u64
    };
    let lat_mag: u64 = if snapshot.latitude_centi < 0 {
        (-snapshot.latitude_centi) as u64
    } else {
        snapshot.latitude_centi as u64
    };
    let ew: &str = if snapshot.longitude_centi < 0 {
        "W"
    } else {
        "E"
    };
    let ns: &str = if snapshot.latitude_centi < 0 {
        "S"
    } else {
        "N"
    };
    let mut line = String::from_str(";");
    line.append(meta.city_name.as_str());
    line.append(";");
    line.append(fmt_centi(lon_mag).as_str());
    line.append("\u{b0}");
    line.append(ew);
    line.append(";");
    line.append(fmt_centi(lat_mag).as_str());
    line.append("\u{b0}");
    line.append(ns);
    line.append(";");
    line.append(fmt_u64(meta.above_sea_level as u64).as_str());
    line.append(";");
    line.append(meta.country_name.as_str());
    line.append(";CEST;UTC");
    line.append(fmt_signed_tenths(snapshot.utc_offset_deci_hours).as_str());
    line.append(";");
    line.append(sunrise.as_str());
    line.append(";");
    line.append(sunset.as_str());
    line.append(";\n");
    Some(line)
}

/// Renders the snapshot and station metadata into the wire document.
///
/// Succeeds exactly when every instant in the snapshot, shifted into the
/// display timezone, is representable as a calendar date; the sole
/// failure condition is `InvalidTimestamp`, and no partial document is
/// ever returned. The successful text is exactly [`spec_render`] of the
/// inputs.
#[verifier::rlimit(50)]
pub fn create_weather_xml(snapshot: &WeatherSnapshot, meta: &StationMetadata) -> (r: Result<
    String,
    WeatherError,
>)
    requires
        snapshot.wf(),
    ensures
        r is Ok <==> all_ts_valid(*snapshot),
        r matches Ok(s) ==> s@ == spec_render(*snapshot, *meta),
        r matches Err(e) ==> e == WeatherError::InvalidTimestamp,
{
    let mut csv = String::from_str("<mb_metadata>\n");
    csv.append(
        "id;name;longitude;latitude;height (m.asl.);country;timezone;utc-timedifference;sunrise;sunset;local date;weekday;local time;temperature(C);feeledTemperature(C);windspeed(km/h);winddirection(degr);wind gust(km/h);low clouds(%);medium clouds(%);high clouds(%);precipitation(mm);probability of Precip(%);snowFraction;sea level pressure(hPa);relative humidity(%);CAPE;picto-code;radiation (W/m2);\n",
    );
    csv.append("</mb_metadata><valid_until>");
    csv.append("2099-06-30");
    csv.append("</valid_until>\n");
    csv.append("<station>\n");
    assert(csv@ == header_text());

    let station = match render_station_line(snapshot, meta) {
        Some(s) => s,
        None => {
            return Err(WeatherError::InvalidTimestamp);
        },
    };
    csv.append(station.as_str());

    let ghost prefix: Seq<char> = header_text() + station_line_text(*snapshot, *meta);
    let ghost off: int = snapshot.utc_offset_deci_hours as int;
    let n = snapshot.hours.len();
    let mut i: usize = 0;
    proof {
        assert(snapshot.hours@.take(0) =~= Seq::<HourlyObservation>::empty());
        assert(csv@ =~= prefix + hourly_lines_text(snapshot.hours@.take(0), off));
    }
    while i < n
        invariant
            i <= n,
            n == snapshot.hours@.len(),
            snapshot.wf(),
            off == snapshot.utc_offset_deci_hours as int,
            csv@ == prefix + hourly_lines_text(snapshot.hours@.take(i as int), off),
            forall|k: int|
                0 <= k < i ==> ts_valid(
                    local_instant((#[trigger] snapshot.hours@[k]).epoch_seconds as int, off),
                ),
        decreases n - i,
    {
        let line = match render_hourly_line(&snapshot.hours[i], snapshot.utc_offset_deci_hours) {
            Some(s) => s,
            None => {
                return Err(WeatherError::InvalidTimestamp);
            },
        };
        csv.append(line.as_str());
        proof {
            let hours = snapshot.hours@;
            assert(hours.take(i + 1).drop_last() =~= hours.take(i as int));
            assert(hours.take(i + 1).last() == hours[i as int]);
            assert(hourly_lines_text(hours.take(i + 1), off) == hourly_lines_text(
                hours.take(i as int),
                off,
            ) + hourly_line_text(hours[i as int], off));
            lemma_concat_associative(
                prefix,
                hourly_lines_text(hours.take(i as int), off),
                hourly_line_text(hours[i as int], off),
            );
        }
        i = i + 1;
    }
    proof {
        assert(snapshot.hours@.take(n as int) =~= snapshot.hours@);
    }
    csv.append("</station>\n");
    proof {
        lemma_concat_associative(
            prefix,
            hourly_lines_text(snapshot.hours@, off),
            "</station>\n"@,
        );
        lemma_concat_associative(
            header_text(),
            station_line_text(*snapshot, *meta),
            hourly_lines_text(snapshot.hours@, off) + "</station>\n"@,
        );
    }
    Ok(csv)
}

/// The text of a temperature given in tenths of a degree: sign and integer
/// part, and the tenths digit only when it is not zero.
pub open spec fn temp_text(t: int) -> Seq<char> {
    let m = abs_of(t);
    let sign: Seq<char> = if t < 0 { seq!['-'] } else { Seq::empty() };
    if m % 10 == 0 {
        sign + dec_digits((m / 10) as nat)
    } else {
        sign + dec_digits((m / 10) as nat) + seq!['.', crate::textfmt::digit_char(m % 10)]
    }
}

/// The current temperature of the snapshot as plain decimal text.
pub fn get_current_temp(snapshot: &WeatherSnapshot) -> (r: String)
    requires
        snapshot.wf(),
    ensures
        r@ == temp_text(snapshot.current_temperature_tenths as int),
{
    let t = snapshot.current_temperature_tenths;
    let m: u64 = if t < 0 {
        (-t) as u64
    } else {
        t as u64
    };
    let mut s = if t < 0 {
        String::from_str("-")
    } else {
        String::new()
    };
    proof {
        reveal_strlit("-");
    }
    s.append(fmt_u64(m / 10).as_str());
    if m % 10 != 0 {
        s.append(".");
        s.append(crate::textfmt::digit_str(m % 10));
        proof {
            reveal_strlit(".");
            assert(s@ =~= temp_text(t as int));
        }
    } else {
        proof {
            assert(s@ =~= temp_text(t as int));
        }
    }
    s
}

/// Rendering is deterministic: equal inputs give byte-identical documents.
pub proof fn lemma_render_deterministic(
    a: WeatherSnapshot,
    b: WeatherSnapshot,
    ma: StationMetadata,
    mb: StationMetadata,
)
    requires
        a == b,
        ma == mb,
    ensures
        spec_render(a, ma) == spec_render(b, mb),
{
}

} // verus!
