//! The icon classifier: a three-stage decision cascade from a condition
//! label, cloud cover, and precipitation intensity to the discrete icon
//! code the downstream controller expects.
//!
//! Stage one maps the label literally to a base code; stage two refines the
//! cloud-cover bucket (code 7) by the cover fraction; stage three refines
//! rain (code 23) by the precipitation intensity when any is falling.

use vstd::prelude::*;
use crate::model::HourlyObservation;

verus! {

/// Stage one: the base icon code for a condition label. Unrecognized
/// labels fall into the cloud-cover bucket (7).
pub open spec fn spec_base_icon(label: Seq<char>) -> int {
    if label == "clear-day"@ || label == "clear-night"@ {
        1
    } else if label == "rain"@ {
        23
    } else if label == "snow"@ {
        24
    } else if label == "sleet"@ || label == "hail"@ {
        35
    } else if label == "fog"@ {
        16
    } else if label == "cloudy"@ || label == "partly-cloudy-day"@ || label
        == "partly-cloudy-night"@ {
        7
    } else if label == "thunderstorm"@ {
        28
    } else {
        7
    }
}

/// Stage two: the cloud-cover bucket (7) refined by the cover fraction,
/// given in thousandths of 1.
pub open spec fn spec_cloud_icon(cloud_milli: int) -> int {
    if cloud_milli < 125 {
        1
    } else if cloud_milli < 500 {
        3
    } else if cloud_milli < 750 {
        9
    } else if cloud_milli < 875 {
        19
    } else {
        22
    }
}

/// Stage three: rain (23) refined by the precipitation intensity, given in
/// tenths of a millimetre, when any is falling.
pub open spec fn spec_rain_icon(precip_tenths: int) -> int {
    if precip_tenths < 5 {
        33
    } else if precip_tenths <= 40 {
        23
    } else {
        25
    }
}

/// The full cascade. Later stages fire only on the specific intermediate
/// code of the earlier stage.
pub open spec fn spec_icon(label: Seq<char>, cloud_milli: int, precip_tenths: int) -> int {
    let base = spec_base_icon(label);
    let refined = if base == 7 {
        spec_cloud_icon(cloud_milli)
    } else {
        base
    };
    if refined == 23 && precip_tenths > 0 {
        spec_rain_icon(precip_tenths)
    } else {
        refined
    }
}

/// Whether two strings hold the same characters.
pub fn str_eq(a: &str, b: &str) -> (r: bool)
    ensures
        r == (a@ == b@),
{
    let la = a.unicode_len();
    let lb = b.unicode_len();
    if la != lb {
        return false;
    }
    let mut i: usize = 0;
    while i < la
        invariant
            i <= la,
            la == a@.len(),
            la == b@.len(),
            forall|k: int| 0 <= k < i ==> a@[k] == b@[k],
        decreases la - i,
    {
        if a.get_char(i) != b.get_char(i) {
            return false;
        }
        i = i + 1;
    }
    proof {
        assert(a@ =~= b@);
    }
    true
}

/// The icon code for one hourly observation.
pub fn get_loxone_weather_icon(hourly: &HourlyObservation) -> (r: i32)
    ensures
        r as int == spec_icon(
            hourly.condition_label@,
            hourly.cloud_cover_milli as int,
            hourly.precip_intensity_tenths as int,
        ),
{
    let label = hourly.condition_label.as_str();
    let mut icon_id: i32 = 7;

    if str_eq(label, "clear-day") || str_eq(label, "clear-night") {
        icon_id = 1;
    } else if str_eq(label, "rain") {
        icon_id = 23;
    } else if str_eq(label, "snow") {
        icon_id = 24;
    } else if str_eq(label, "sleet") || str_eq(label, "hail") {
        icon_id = 35;
    } else if str_eq(label, "fog") {
        icon_id = 16;
    } else if str_eq(label, "cloudy") || str_eq(label, "partly-cloudy-day") || str_eq(
        label,
        "partly-cloudy-night",
    ) {
        icon_id = 7;
    } else if str_eq(label, "thunderstorm") {
        icon_id = 28;
    }

    if icon_id == 7 {
        let cloud_cover = hourly.cloud_cover_milli;
        icon_id = if cloud_cover < 125 {
            1
        } else if cloud_cover < 500 {
            3
        } else if cloud_cover < 750 {
            9
        } else if cloud_cover < 875 {
            19
        } else {
            22
        };
    }

    if icon_id == 23 && hourly.precip_intensity_tenths > 0 {
        icon_id = if hourly.precip_intensity_tenths < 5 {
            33
        } else if hourly.precip_intensity_tenths <= 40 {
            23
        } else {
            25
        };
    }

    icon_id
}

} // verus!
