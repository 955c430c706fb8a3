//! Error taxonomy of the gateway. Every failure a request can hit is one of
//! these conditions; each carries a fixed human-readable description.

use vstd::prelude::*;

verus! {

/// The failure conditions a request can encounter.
#[derive(Clone, Copy, Debug, PartialEq, Eq, Structural)]
pub enum WeatherError {
    /// The caller-supplied coordinate string is not two comma-separated
    /// decimal numbers.
    MalformedCoordinates,
    /// The upstream provider could not be reached or returned an unusable
    /// response.
    UpstreamUnavailable,
    /// The provider API key is absent from the configuration.
    MissingCredential,
    /// An epoch value in the snapshot cannot be converted to a calendar
    /// instant.
    InvalidTimestamp,
    /// The cache synchronization primitive failed.
    LockContention,
}

impl WeatherError {
    /// The fixed description of this error, surfaced to the caller.
    pub fn message(&self) -> (r: &'static str)
        ensures
            r@ == self.spec_message(),
    {
        match self {
            WeatherError::MalformedCoordinates => "malformed coordinates",
            WeatherError::UpstreamUnavailable => "upstream weather provider unavailable",
            WeatherError::MissingCredential => "missing provider API key",
            WeatherError::InvalidTimestamp => "invalid timestamp in weather data",
            WeatherError::LockContention => "cache lock contention",
        }
    }

    /// What `message` returns for each condition.
    pub open spec fn spec_message(&self) -> Seq<char> {
        match self {
            WeatherError::MalformedCoordinates => "malformed coordinates"@,
            WeatherError::UpstreamUnavailable => "upstream weather provider unavailable"@,
            WeatherError::MissingCredential => "missing provider API key"@,
            WeatherError::InvalidTimestamp => "invalid timestamp in weather data"@,
            WeatherError::LockContention => "cache lock contention"@,
        }
    }
}

} // verus!
