//! Construction of the upstream request URLs.

use vstd::prelude::*;

verus! {

/// The geocoding request URL for a postal code, country and API key.
pub open spec fn spec_geocode_url(zip: Seq<char>, country: Seq<char>, key: Seq<char>) -> Seq<
    char,
> {
    "http://api.openweathermap.org/geo/1.0/zip?zip="@ + zip + ","@ + country + "&appid="@ + key
}

/// The air-pollution request URL for a coordinate pair and API key.
pub open spec fn spec_pollution_url(lat: Seq<char>, lon: Seq<char>, key: Seq<char>) -> Seq<
    char,
> {
    "http://api.openweathermap.org/data/2.5/air_pollution?lat="@ + lat + "&lon="@ + lon + "&appid="@
        + key
}

/// Builds the geocoding request URL from a postal code, country and API key.
pub fn geocode_url(zip: &str, country: &str, key: &str) -> (r: String)
    ensures
        r@ == spec_geocode_url(zip@, country@, key@),
{
    let mut url = String::from_str("http://api.openweathermap.org/geo/1.0/zip?zip=");
    url.append(zip);
    url.append(",");
    url.append(country);
    url.append("&appid=");
    url.append(key);
    proof {
        assert(url@ =~= spec_geocode_url(zip@, country@, key@));
    }
    url
}

/// Builds the air-pollution request URL from coordinates and an API key.
pub fn pollution_url(lat: &str, lon: &str, key: &str) -> (r: String)
    ensures
        r@ == spec_pollution_url(lat@, lon@, key@),
{
    let mut url = String::from_str("http://api.openweathermap.org/data/2.5/air_pollution?lat=");
    url.append(lat);
    url.append("&lon=");
    url.append(lon);
    url.append("&appid=");
    url.append(key);
    proof {
        assert(url@ =~= spec_pollution_url(lat@, lon@, key@));
    }
    url
}

} // verus!
