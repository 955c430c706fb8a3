//! Conversion of instants into the display texts the wire format needs: a
//! `HH:MM` clock and a `DD.MM.YYYY;Www;HH` day stamp.
//!
//! Snapshot instants are UTC epochs, but the document displays them in the
//! station's timezone: the encoder first shifts each epoch by the display
//! offset ([`local_instant`]) and then converts the shifted instant. The
//! calendar arithmetic itself is done by the `chrono` crate behind the two
//! trusted wrappers below, which format exactly the instant they are
//! given; everything said about their results is stated here once and
//! relied on by the encoder.

use vstd::prelude::*;
use chrono::TimeZone;
use chrono::Utc;
use crate::textfmt::digit_char;

verus! {

/// The display reading of a UTC instant in the station's timezone: the
/// epoch shifted by the offset given in tenths of an hour.
pub open spec fn local_instant(epoch: int, offset_deci_hours: int) -> int {
    epoch + 360 * offset_deci_hours
}

/// The hour of day (0..=23) of an instant given as epoch seconds.
pub open spec fn hour_of(epoch: int) -> int {
    (epoch % 86400) / 3600
}

/// The minute within the hour (0..=59) of an instant given as epoch
/// seconds.
pub open spec fn minute_of(epoch: int) -> int {
    ((epoch % 86400) % 3600) / 60
}

/// A zero-padded `HH:MM` clock text.
pub open spec fn clock_text(h: int, m: int) -> Seq<char> {
    seq![
        digit_char(h / 10),
        digit_char(h % 10),
        ':',
        digit_char(m / 10),
        digit_char(m % 10),
    ]
}

/// Whether chrono can represent the epoch as a calendar instant. True
/// exactly when `Utc.timestamp_opt(epoch, 0)` yields a single instant.
pub uninterp spec fn ts_valid(epoch: int) -> bool;

/// The text `chrono` produces for an in-range epoch under the format
/// `%d.%m.%Y;%a;%H`: local date `DD.MM.YYYY`, three-letter weekday
/// abbreviation, and zero-padded hour, separated by semicolons.
pub uninterp spec fn day_stamp_of(epoch: int) -> Seq<char>;

/// Relies on chrono's `TimeZone::timestamp_opt` for `Utc` and
/// `DateTime::format` with `"%d.%m.%Y;%a;%H"`: the conversion yields a
/// single instant exactly when the epoch is in chrono's representable
/// range, and the formatted text depends on the epoch alone.
#[verifier::external_body]
pub(crate) fn format_day_stamp(epoch: i64) -> (r: Option<String>)
    ensures
        r is Some <==> ts_valid(epoch as int),
        r matches Some(s) ==> s@ == day_stamp_of(epoch as int),
{
    match Utc.timestamp_opt(epoch, 0).single() {
        Some(dt) => Some(dt.format("%d.%m.%Y;%a;%H").to_string()),
        None => None,
    }
}

/// Relies on chrono's `TimeZone::timestamp_opt` for `Utc` and
/// `DateTime::format` with `"%H:%M"`: the conversion yields a single
/// instant exactly when the epoch is in chrono's representable range, and
/// `%H`/`%M` are the zero-padded hour and minute of the UTC instant, which
/// chrono derives from the epoch's remainder within its day.
#[verifier::external_body]
pub(crate) fn format_clock(epoch: i64) -> (r: Option<String>)
    ensures
        r is Some <==> ts_valid(epoch as int),
        r matches Some(s) ==> s@ == clock_text(hour_of(epoch as int), minute_of(epoch as int)),
{
    match Utc.timestamp_opt(epoch, 0).single() {
        Some(dt) => Some(dt.format("%H:%M").to_string()),
        None => None,
    }
}

} // verus!
