//! The upstream provider's request URL: a pure function of the API key
//! and the coordinates, built here so that its exact shape is part of the
//! library's contract; sending the request is the caller's business.

use vstd::prelude::*;

verus! {

/// The forecast request URL: the fixed base, the key, then latitude and
/// longitude separated by a comma, with the fixed unit query.
pub open spec fn provider_url_text(
    api_key: Seq<char>,
    latitude: Seq<char>,
    longitude: Seq<char>,
) -> Seq<char> {
    "https://api.pirateweather.net/forecast/"@ + api_key + "/"@ + latitude + ","@ + longitude
        + "?&units=ca"@
}

/// Builds the forecast request URL for one key and one coordinate pair.
pub fn provider_url(api_key: &str, latitude: &str, longitude: &str) -> (r: String)
    ensures
        r@ == provider_url_text(api_key@, latitude@, longitude@),
{
    let mut url = String::from_str("https://api.pirateweather.net/forecast/");
    url.append(api_key);
    url.append("/");
    url.append(latitude);
    url.append(",");
    url.append(longitude);
    url.append("?&units=ca");
    url
}

} // verus!
