//! The data model of the gateway.
//!
//! Continuous weather signals travel as scaled integers so that the decision
//! logic and the encoder are exact: temperatures in tenths of a degree,
//! coordinates in hundredths of a degree, the UTC offset in tenths of an
//! hour, precipitation intensity in tenths of a millimetre, and the
//! fraction-valued signals (cloud cover, precipitation probability,
//! humidity) in thousandths.

use vstd::prelude::*;

verus! {

/// The largest epoch magnitude a snapshot may carry: far beyond any
/// representable calendar date, and small enough that shifting an instant
/// by the display offset cannot overflow the machine word.
pub const MAX_EPOCH_MAGNITUDE: i64 = 0x4000_0000_0000_0000;

/// The largest UTC-offset magnitude a snapshot may carry, in tenths of an
/// hour; far beyond any real offset, bounded for the same reason.
pub const MAX_OFFSET_MAGNITUDE_DECI: i64 = 10000;

/// One hourly forecast row, ordered ascending by `epoch_seconds` in a
/// snapshot. Fraction-valued signals are thousandths of 1.
pub struct HourlyObservation {
    /// The UTC instant of this observation.
    pub epoch_seconds: i64,
    /// The provider's condition label (for example "rain" or "clear-day").
    pub condition_label: String,
    /// Temperature in tenths of a degree.
    pub temperature_tenths: i64,
    /// Apparent temperature in tenths of a degree.
    pub apparent_temperature_tenths: i64,
    /// Wind speed in whole units.
    pub wind_speed: i64,
    /// Wind bearing in whole degrees.
    pub wind_bearing: i64,
    /// Wind gust in whole units.
    pub wind_gust: i64,
    /// Cloud cover as thousandths of 1 (0..=1000).
    pub cloud_cover_milli: u32,
    /// Precipitation intensity in tenths of a millimetre.
    pub precip_intensity_tenths: i64,
    /// Precipitation probability as thousandths of 1 (0..=1000).
    pub precip_probability_milli: u32,
    /// Sea-level pressure in whole hectopascal.
    pub pressure: i64,
    /// Relative humidity as thousandths of 1 (0..=1000).
    pub humidity_milli: u32,
    /// UV index in hundredths.
    pub uv_index_centi: i64,
}

impl HourlyObservation {
    /// The fraction-valued signals are within [0, 1], and every signed
    /// signal has a representable magnitude.
    pub open spec fn wf(&self) -> bool {
        &&& -MAX_EPOCH_MAGNITUDE <= self.epoch_seconds <= MAX_EPOCH_MAGNITUDE
        &&& self.cloud_cover_milli <= 1000
        &&& self.precip_probability_milli <= 1000
        &&& self.humidity_milli <= 1000
        &&& self.temperature_tenths != i64::MIN
        &&& self.apparent_temperature_tenths != i64::MIN
        &&& self.wind_speed != i64::MIN
        &&& self.wind_bearing != i64::MIN
        &&& self.wind_gust != i64::MIN
        &&& self.precip_intensity_tenths != i64::MIN
        &&& self.pressure != i64::MIN
        &&& self.uv_index_centi != i64::MIN
    }
}

/// The day's sun times, both UTC instants.
pub struct DailySun {
    pub sunrise_epoch_seconds: i64,
    pub sunset_epoch_seconds: i64,
}

/// One upstream forecast for a single location: position, current
/// conditions, sun times, and the hourly series. Immutable once built.
pub struct WeatherSnapshot {
    /// Latitude in hundredths of a degree (negative is south).
    pub latitude_centi: i64,
    /// Longitude in hundredths of a degree (negative is west).
    pub longitude_centi: i64,
    /// UTC offset in tenths of an hour.
    pub utc_offset_deci_hours: i64,
    /// Current temperature in tenths of a degree.
    pub current_temperature_tenths: i64,
    /// Sunrise and sunset.
    pub sun: DailySun,
    /// Hourly observations, ascending by time; the encoder does not re-sort.
    pub hours: Vec<HourlyObservation>,
}

impl WeatherSnapshot {
    /// Every row is well formed and every signed field has a representable
    /// magnitude.
    pub open spec fn wf(&self) -> bool {
        &&& self.latitude_centi != i64::MIN
        &&& self.longitude_centi != i64::MIN
        &&& -MAX_OFFSET_MAGNITUDE_DECI <= self.utc_offset_deci_hours <= MAX_OFFSET_MAGNITUDE_DECI
        &&& self.current_temperature_tenths != i64::MIN
        &&& -MAX_EPOCH_MAGNITUDE <= self.sun.sunrise_epoch_seconds <= MAX_EPOCH_MAGNITUDE
        &&& -MAX_EPOCH_MAGNITUDE <= self.sun.sunset_epoch_seconds <= MAX_EPOCH_MAGNITUDE
        &&& forall|i: int| 0 <= i < self.hours@.len() ==> (#[trigger] self.hours@[i]).wf()
    }
}

/// The station description that frames a rendered document. Supplied by
/// configuration, except the elevation, which travels with the request.
pub struct StationMetadata {
    pub city_name: String,
    pub country_name: String,
    /// Metres above sea level.
    pub above_sea_level: u32,
}

/// The caller-side inputs of one conversion: the elevation and the
/// coordinates as validated decimal text.
pub struct DataCreationOptions {
    pub above_sea_level: u32,
    pub latitude: String,
    pub longitude: String,
}

} // verus!
