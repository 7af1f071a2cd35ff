use vstd::prelude::*;
use crate::common::{as_int, reading, text_of, value_of, same_report, ProviderErrors, WeatherData};
use crate::coordinates::Location;
use crate::decimal::reading_of;
use crate::units::{inhg_to_mmhg, inhg_to_mmhg_spec, kph_to_mps, kph_to_mps_spec};

verus! {

/// Current conditions as api.weatherapi.com reports them; numbers are decimal text.
pub struct ResponseCurrent {
    /// Temperature in °C
    pub temp_c: String,
    /// Feels like temperature in °C
    pub feelslike_c: String,
    /// Relative humidity in %
    pub humidity: String,
    /// Wind speed in km/h
    pub wind_kph: String,
    /// Wind gusts speed in km/h
    pub gust_kph: String,
    /// Pressure in inches of mercury
    pub pressure_in: String,
    /// Precipitation in mm
    pub precip_mm: String,
    /// Cloudiness in %
    pub cloud: String,
    /// Visibility in km
    pub vis_km: String,
    /// UV index
    pub uv: String,
    /// Weather description
    pub condition: ResponseContition,
}

pub struct ResponseContition {
    pub text: String,
}

pub struct ResponseLocation {
    /// Location name
    pub name: String,
    /// Location region
    pub region: String,
    /// Location country
    pub country: String,
}

pub struct ResponseWeather {
    pub location: ResponseLocation,
    pub current: ResponseCurrent,
}

/// Client of the service <https://www.weatherapi.com/>
pub struct WeatherApiCom {
    /// API key
    pub api_key: String,
}

pub open spec fn weather_url_spec(api_key: Seq<char>, lat: Seq<char>, lon: Seq<char>) -> Seq<char> {
    "http://api.weatherapi.com/v1/current.json?key="@ + api_key + "&q="@ + lat + ","@ + lon
}

/// Every numeric field of the answer is a reading.
pub open spec fn readings_valid(c: ResponseCurrent) -> bool {
    &&& reading_of(c.temp_c@) is Some
    &&& reading_of(c.feelslike_c@) is Some
    &&& reading_of(c.humidity@) is Some
    &&& reading_of(c.wind_kph@) is Some
    &&& reading_of(c.gust_kph@) is Some
    &&& reading_of(c.pressure_in@) is Some
    &&& reading_of(c.precip_mm@) is Some
    &&& reading_of(c.cloud@) is Some
    &&& reading_of(c.vis_km@) is Some
    &&& reading_of(c.uv@) is Some
}

/// `d` is the report for `location` made from the answer `w`: speeds turned
/// from km/h into m/s, pressure from inHg into mmHg, no dew point.
pub open spec fn report_matches(d: WeatherData, location: Seq<char>, w: ResponseWeather) -> bool {
    let c = w.current;
    &&& d.location@ == location
    &&& as_int(d.temperature) == reading_of(c.temp_c@)
    &&& as_int(d.feelslike) == reading_of(c.feelslike_c@)
    &&& as_int(d.humidity) == reading_of(c.humidity@)
    &&& as_int(d.wind_speed) == Some(kph_to_mps_spec(value_of(c.wind_kph@)))
    &&& as_int(d.gust_speed) == Some(kph_to_mps_spec(value_of(c.gust_kph@)))
    &&& as_int(d.pressure) == Some(inhg_to_mmhg_spec(value_of(c.pressure_in@)))
    &&& as_int(d.precip) == reading_of(c.precip_mm@)
    &&& as_int(d.cloud) == reading_of(c.cloud@)
    &&& as_int(d.vis) == reading_of(c.vis_km@)
    &&& as_int(d.uv) == reading_of(c.uv@)
    &&& d.dev_point is None
    &&& text_of(d.description) == Some(c.condition.text@)
}

/// The two answers hold the same text in every field that a report reads.
pub open spec fn same_answer(a: ResponseWeather, b: ResponseWeather) -> bool {
    let (x, y) = (a.current, b.current);
    &&& x.temp_c@ == y.temp_c@
    &&& x.feelslike_c@ == y.feelslike_c@
    &&& x.humidity@ == y.humidity@
    &&& x.wind_kph@ == y.wind_kph@
    &&& x.gust_kph@ == y.gust_kph@
    &&& x.pressure_in@ == y.pressure_in@
    &&& x.precip_mm@ == y.precip_mm@
    &&& x.cloud@ == y.cloud@
    &&& x.vis_km@ == y.vis_km@
    &&& x.uv@ == y.uv@
    &&& x.condition.text@ == y.condition.text@
}

/// Reports made from the same location and equal answers are equal.
pub proof fn lemma_report_deterministic(
    d1: WeatherData,
    d2: WeatherData,
    location: Seq<char>,
    w1: ResponseWeather,
    w2: ResponseWeather,
)
    requires
        report_matches(d1, location, w1),
        report_matches(d2, location, w2),
        same_answer(w1, w2),
    ensures
        same_report(d1, d2),
{
}

impl WeatherApiCom {
    /// Address of the current conditions at the location, with the API key.
    pub fn weather_url(&self, loc: &Location) -> (r: String)
        ensures
            r@ == weather_url_spec(self.api_key@, loc.lat@, loc.lon@),
    {
        let mut u = String::from_str("http://api.weatherapi.com/v1/current.json?key=");
        u.append(self.api_key.as_str());
        u.append("&q=");
        u.append(loc.lat.as_str());
        u.append(",");
        u.append(loc.lon.as_str());
        u
    }
}

/// Builds the report for `location` from an answer of the service.
pub fn to_weather_data(location: String, w: ResponseWeather) -> (r: Result<
    WeatherData,
    ProviderErrors,
>)
    ensures
        r is Ok <==> readings_valid(w.current),
        r matches Ok(d) ==> report_matches(d, location@, w),
        r matches Err(e) ==> e is MalformedResponse,
{
    let c = w.current;
    let temperature = reading(&c.temp_c)?;
    let feelslike = reading(&c.feelslike_c)?;
    let humidity = reading(&c.humidity)?;
    let wind = reading(&c.wind_kph)?;
    let gust = reading(&c.gust_kph)?;
    let pressure = reading(&c.pressure_in)?;
    let precip = reading(&c.precip_mm)?;
    let cloud = reading(&c.cloud)?;
    let vis = reading(&c.vis_km)?;
    let uv = reading(&c.uv)?;
    Ok(
        WeatherData {
            location,
            temperature: Some(temperature),
            feelslike: Some(feelslike),
            humidity: Some(humidity),
            wind_speed: Some(kph_to_mps(wind)),
            gust_speed: Some(kph_to_mps(gust)),
            pressure: Some(inhg_to_mmhg(pressure)),
            precip: Some(precip),
            cloud: Some(cloud),
            vis: Some(vis),
            uv: Some(uv),
            dev_point: None,
            description: Some(c.condition.text),
        },
    )
}

} // verus!
