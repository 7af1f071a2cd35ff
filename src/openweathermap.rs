use vstd::prelude::*;
use crate::common::{as_int, reading, text_of, value_of, same_report, ProviderErrors, WeatherData};
use crate::coordinates::Location;
use crate::decimal::reading_of;
use crate::units::{hpa_to_mmhg, hpa_to_mmhg_spec};

verus! {

/// One weather condition.
pub struct WeatherInfo {
    pub main: String,
}

/// Main readings; numbers are decimal text.
pub struct MainInfo {
    /// Temperature in °C
    pub temp: String,
    /// Feels like temperature in °C
    pub feels_like: String,
    pub temp_min: String,
    pub temp_max: String,
    /// Pressure in hPa
    pub pressure: String,
    /// Relative humidity in %
    pub humidity: String,
}

pub struct WindInfo {
    /// Wind speed in m/s
    pub speed: String,
}

pub struct CloudsInfo {
    /// Cloudiness in %
    pub all: String,
}

/// Current weather as api.openweathermap.org reports it in metric units.
pub struct ResponseWeather {
    pub weather: Vec<WeatherInfo>,
    pub main: MainInfo,
    pub visibility: String,
    pub wind: WindInfo,
    pub clouds: CloudsInfo,
    pub name: String,
}

/// Client of the service <https://openweathermap.org/>
pub struct OpenWeatherMap {
    /// API key
    pub api_key: String,
}

pub open spec fn weather_url_spec(api_key: Seq<char>, lat: Seq<char>, lon: Seq<char>) -> Seq<char> {
    "https://api.openweathermap.org/data/2.5/weather?units=metric&appid="@ + api_key + "&lat="@
        + lat + "&lon="@ + lon
}

/// Every numeric field that a report reads is a reading.
pub open spec fn readings_valid(w: ResponseWeather) -> bool {
    &&& reading_of(w.main.temp@) is Some
    &&& reading_of(w.main.feels_like@) is Some
    &&& reading_of(w.main.humidity@) is Some
    &&& reading_of(w.wind.speed@) is Some
    &&& reading_of(w.main.pressure@) is Some
    &&& reading_of(w.clouds.all@) is Some
    &&& reading_of(w.visibility@) is Some
}

/// `d` is the report for `location` made from the answer `w`: pressure turned
/// from hPa into mmHg, the first condition as description, no gusts,
/// precipitation, UV index or dew point.
pub open spec fn report_matches(d: WeatherData, location: Seq<char>, w: ResponseWeather) -> bool {
    &&& d.location@ == location
    &&& as_int(d.temperature) == reading_of(w.main.temp@)
    &&& as_int(d.feelslike) == reading_of(w.main.feels_like@)
    &&& as_int(d.humidity) == reading_of(w.main.humidity@)
    &&& as_int(d.wind_speed) == reading_of(w.wind.speed@)
    &&& d.gust_speed is None
    &&& as_int(d.pressure) == Some(hpa_to_mmhg_spec(value_of(w.main.pressure@)))
    &&& d.precip is None
    &&& as_int(d.cloud) == reading_of(w.clouds.all@)
    &&& as_int(d.vis) == reading_of(w.visibility@)
    &&& d.uv is None
    &&& d.dev_point is None
    &&& w.weather@.len() > 0
    &&& text_of(d.description) == Some(w.weather@[0].main@)
}

/// The two answers hold the same text in every field that a report reads.
pub open spec fn same_answer(a: ResponseWeather, b: ResponseWeather) -> bool {
    &&& a.main.temp@ == b.main.temp@
    &&& a.main.feels_like@ == b.main.feels_like@
    &&& a.main.humidity@ == b.main.humidity@
    &&& a.wind.speed@ == b.wind.speed@
    &&& a.main.pressure@ == b.main.pressure@
    &&& a.clouds.all@ == b.clouds.all@
    &&& a.visibility@ == b.visibility@
    &&& a.weather@.len() == b.weather@.len()
    &&& a.weather@.len() > 0 ==> a.weather@[0].main@ == b.weather@[0].main@
}

/// Reports made from the same location and equal answers are equal.
pub proof fn lemma_report_deterministic(
    d1: WeatherData,
    d2: WeatherData,
    location: Seq<char>,
    w1: ResponseWeather,
    w2: ResponseWeather,
)
    requires
        report_matches(d1, location, w1),
        report_matches(d2, location, w2),
        same_answer(w1, w2),
    ensures
        same_report(d1, d2),
{
}

impl OpenWeatherMap {
    /// Address of the current weather at the location, in metric units, with the API key.
    pub fn weather_url(&self, loc: &Location) -> (r: String)
        ensures
            r@ == weather_url_spec(self.api_key@, loc.lat@, loc.lon@),
    {
        let mut u = String::from_str(
            "https://api.openweathermap.org/data/2.5/weather?units=metric&appid=",
        );
        u.append(self.api_key.as_str());
        u.append("&lat=");
        u.append(loc.lat.as_str());
        u.append("&lon=");
        u.append(loc.lon.as_str());
        u
    }
}

/// Builds the report for `location` from an answer of the service. An answer
/// without any weather condition is malformed.
pub fn to_weather_data(location: String, w: ResponseWeather) -> (r: Result<
    WeatherData,
    ProviderErrors,
>)
    ensures
        r is Ok <==> readings_valid(w) && w.weather@.len() > 0,
        r matches Ok(d) ==> report_matches(d, location@, w),
        r matches Err(e) ==> e is MalformedResponse,
{
    let temperature = reading(&w.main.temp)?;
    let feelslike = reading(&w.main.feels_like)?;
    let humidity = reading(&w.main.humidity)?;
    let wind = reading(&w.wind.speed)?;
    let pressure = reading(&w.main.pressure)?;
    let cloud = reading(&w.clouds.all)?;
    let vis = reading(&w.visibility)?;
    let mut conditions = w.weather;
    if conditions.len() == 0 {
        return Err(ProviderErrors::MalformedResponse(String::from_str("no weather condition")));
    }
    let first = conditions.remove(0);
    Ok(
        WeatherData {
            location,
            temperature: Some(temperature),
            feelslike: Some(feelslike),
            humidity: Some(humidity),
            wind_speed: Some(wind),
            gust_speed: None,
            pressure: Some(hpa_to_mmhg(pressure)),
            precip: None,
            cloud: Some(cloud),
            vis: Some(vis),
            uv: None,
            dev_point: None,
            description: Some(first.main),
        },
    )
}

} // verus!
