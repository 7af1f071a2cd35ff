use vstd::prelude::*;
use crate::common::ProviderErrors;
use crate::decimal::{parse_reading, reading_of};

verus! {

/// A place found for an address: its coordinates as decimal text and its name.
pub struct Location {
    /// Latitude
    pub lat: String,
    /// Longitude
    pub lon: String,
    /// Display name
    pub display_name: String,
}

/// What `urlencoding::encode` makes of a text.
pub uninterp spec fn url_encoded(s: Seq<char>) -> Seq<char>;

/// Relies on `urlencoding::encode`: it percent-encodes every UTF-8 byte of the
/// text but letters, digits and `-_.~`; the result depends on the text alone.
#[verifier::external_body]
fn encode_address(s: &str) -> (r: String)
    ensures
        r@ == url_encoded(s@),
{
    urlencoding::encode(s).into_owned()
}

pub open spec fn geocode_url_spec(address: Seq<char>) -> Seq<char> {
    "https://nominatim.openstreetmap.org/search?q="@ + url_encoded(address) + "&format=json"@
}

/// Address of the geocoder's search for a free-text address.
pub fn geocode_url(address: &str) -> (r: String)
    ensures
        r@ == geocode_url_spec(address@),
{
    let mut u = String::from_str("https://nominatim.openstreetmap.org/search?q=");
    let e = encode_address(address);
    u.append(e.as_str());
    u.append("&format=json");
    u
}

/// The coordinates of the place are decimal numbers.
pub open spec fn valid_place(l: Location) -> bool {
    reading_of(l.lat@) is Some && reading_of(l.lon@) is Some
}

/// The best match among the places the geocoder found: the first one, which
/// must carry decimal coordinates.
pub fn pick_location(places: Vec<Location>) -> (r: Result<Location, ProviderErrors>)
    ensures
        places@.len() > 0 && valid_place(places@[0]) ==> (r matches Ok(l) && l == places@[0]),
        places@.len() == 0 ==> (r matches Err(ProviderErrors::GeocodingFailed(m)) && m@
            == "Location not found"@),
        places@.len() > 0 && !valid_place(places@[0]) ==> (r matches Err(
            ProviderErrors::GeocodingFailed(m),
        ) && m@ == "Location has no coordinates"@),
{
    let mut places = places;
    if places.len() == 0 {
        return Err(ProviderErrors::GeocodingFailed(String::from_str("Location not found")));
    }
    let first = places.remove(0);
    if parse_reading(first.lat.as_str()).is_none() || parse_reading(first.lon.as_str()).is_none() {
        return Err(ProviderErrors::GeocodingFailed(String::from_str("Location has no coordinates")));
    }
    Ok(first)
}

} // verus!
