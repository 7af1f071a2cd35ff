use vstd::prelude::*;
use crate::common::{as_int, reading, text_of, value_of, same_report, ProviderErrors, WeatherData};
use crate::coordinates::Location;
use crate::decimal::reading_of;
use crate::units::{hpa_to_mmhg, hpa_to_mmhg_spec};

verus! {

pub struct Metric {
    pub metric: ValueMetric,
}

/// A number as decimal text.
pub struct ValueMetric {
    pub value: String,
}

pub struct WindData {
    pub speed: Metric,
}

/// Current conditions as dataservice.accuweather.com reports them.
pub struct ResponseWeather {
    pub weather_text: String,
    pub temperature: Metric,
    pub real_feel_temperature: Metric,
    pub relative_humidity: String,
    pub dew_point: Metric,
    pub wind: WindData,
    pub wind_gust: WindData,
    pub uvindex: String,
    pub uvindex_text: String,
    pub visibility: Metric,
    pub cloud_cover: String,
    pub pressure: Metric,
}

/// Answer of the location search: the location key, where it holds one as text.
pub struct SearchResponse {
    pub key: Option<String>,
}

/// Client of the service <https://www.accuweather.com/>
pub struct AccuWeather {
    /// API key
    pub api_key: String,
}

pub open spec fn search_url_spec(api_key: Seq<char>, lat: Seq<char>, lon: Seq<char>) -> Seq<char> {
    "http://dataservice.accuweather.com/locations/v1/cities/geoposition/search?apikey="@ + api_key
        + "&q="@ + lat + ","@ + lon
}

pub open spec fn conditions_url_spec(location_key: Seq<char>, api_key: Seq<char>) -> Seq<char> {
    "http://dataservice.accuweather.com/currentconditions/v1/"@ + location_key + "?apikey="@
        + api_key + "&language=uk-ua&details=true"@
}

/// Every numeric field that a report reads is a reading.
pub open spec fn readings_valid(w: ResponseWeather) -> bool {
    &&& reading_of(w.temperature.metric.value@) is Some
    &&& reading_of(w.real_feel_temperature.metric.value@) is Some
    &&& reading_of(w.relative_humidity@) is Some
    &&& reading_of(w.wind.speed.metric.value@) is Some
    &&& reading_of(w.wind_gust.speed.metric.value@) is Some
    &&& reading_of(w.pressure.metric.value@) is Some
    &&& reading_of(w.cloud_cover@) is Some
    &&& reading_of(w.visibility.metric.value@) is Some
    &&& reading_of(w.uvindex@) is Some
    &&& reading_of(w.dew_point.metric.value@) is Some
}

/// `d` is the report for `location` made from the conditions `w`: pressure
/// turned from hPa into mmHg, no precipitation.
pub open spec fn report_matches(d: WeatherData, location: Seq<char>, w: ResponseWeather) -> bool {
    &&& d.location@ == location
    &&& as_int(d.temperature) == reading_of(w.temperature.metric.value@)
    &&& as_int(d.feelslike) == reading_of(w.real_feel_temperature.metric.value@)
    &&& as_int(d.humidity) == reading_of(w.relative_humidity@)
    &&& as_int(d.wind_speed) == reading_of(w.wind.speed.metric.value@)
    &&& as_int(d.gust_speed) == reading_of(w.wind_gust.speed.metric.value@)
    &&& as_int(d.pressure) == Some(hpa_to_mmhg_spec(value_of(w.pressure.metric.value@)))
    &&& d.precip is None
    &&& as_int(d.cloud) == reading_of(w.cloud_cover@)
    &&& as_int(d.vis) == reading_of(w.visibility.metric.value@)
    &&& as_int(d.uv) == reading_of(w.uvindex@)
    &&& as_int(d.dev_point) == reading_of(w.dew_point.metric.value@)
    &&& text_of(d.description) == Some(w.weather_text@)
}

/// The two answers hold the same text in every field that a report reads.
pub open spec fn same_answer(a: ResponseWeather, b: ResponseWeather) -> bool {
    &&& a.temperature.metric.value@ == b.temperature.metric.value@
    &&& a.real_feel_temperature.metric.value@ == b.real_feel_temperature.metric.value@
    &&& a.relative_humidity@ == b.relative_humidity@
    &&& a.wind.speed.metric.value@ == b.wind.speed.metric.value@
    &&& a.wind_gust.speed.metric.value@ == b.wind_gust.speed.metric.value@
    &&& a.pressure.metric.value@ == b.pressure.metric.value@
    &&& a.cloud_cover@ == b.cloud_cover@
    &&& a.visibility.metric.value@ == b.visibility.metric.value@
    &&& a.uvindex@ == b.uvindex@
    &&& a.dew_point.metric.value@ == b.dew_point.metric.value@
    &&& a.weather_text@ == b.weather_text@
}

/// Reports made from the same location and equal answers are equal.
pub proof fn lemma_report_deterministic(
    d1: WeatherData,
    d2: WeatherData,
    location: Seq<char>,
    w1: ResponseWeather,
    w2: ResponseWeather,
)
    requires
        report_matches(d1, location, w1),
        report_matches(d2, location, w2),
        same_answer(w1, w2),
    ensures
        same_report(d1, d2),
{
}

impl AccuWeather {
    /// Address of the location search at the coordinates, with the API key.
    pub fn search_url(&self, loc: &Location) -> (r: String)
        ensures
            r@ == search_url_spec(self.api_key@, loc.lat@, loc.lon@),
    {
        let mut u = String::from_str(
            "http://dataservice.accuweather.com/locations/v1/cities/geoposition/search?apikey=",
        );
        u.append(self.api_key.as_str());
        u.append("&q=");
        u.append(loc.lat.as_str());
        u.append(",");
        u.append(loc.lon.as_str());
        u
    }

    /// Address of the current conditions for a location key, with the API key.
    pub fn conditions_url(&self, location_key: &String) -> (r: String)
        ensures
            r@ == conditions_url_spec(location_key@, self.api_key@),
    {
        let mut u = String::from_str("http://dataservice.accuweather.com/currentconditions/v1/");
        u.append(location_key.as_str());
        u.append("?apikey=");
        u.append(self.api_key.as_str());
        u.append("&language=uk-ua&details=true");
        u
    }
}

/// The location key of a search answer.
pub fn location_key(s: SearchResponse) -> (r: Result<String, ProviderErrors>)
    ensures
        s.key matches Some(k) ==> (r matches Ok(v) && v@ == k@),
        s.key is None ==> r matches Err(ProviderErrors::LocationKeyNotFound),
{
    match s.key {
        Some(k) => Ok(k),
        None => Err(ProviderErrors::LocationKeyNotFound),
    }
}

/// Builds the report for `location` from the first entry of the conditions list.
pub fn to_weather_data(location: String, list: Vec<ResponseWeather>) -> (r: Result<
    WeatherData,
    ProviderErrors,
>)
    ensures
        list@.len() == 0 ==> r matches Err(ProviderErrors::NoWeatherData),
        list@.len() > 0 ==> (r is Ok <==> readings_valid(list@[0])),
        list@.len() > 0 ==> (r matches Ok(d) ==> report_matches(d, location@, list@[0])),
        list@.len() > 0 ==> (r matches Err(e) ==> e is MalformedResponse),
{
    let mut list = list;
    if list.len() == 0 {
        return Err(ProviderErrors::NoWeatherData);
    }
    let w = list.remove(0);
    let temperature = reading(&w.temperature.metric.value)?;
    let feelslike = reading(&w.real_feel_temperature.metric.value)?;
    let humidity = reading(&w.relative_humidity)?;
    let wind = reading(&w.wind.speed.metric.value)?;
    let gust = reading(&w.wind_gust.speed.metric.value)?;
    let pressure = reading(&w.pressure.metric.value)?;
    let cloud = reading(&w.cloud_cover)?;
    let vis = reading(&w.visibility.metric.value)?;
    let uv = reading(&w.uvindex)?;
    let dew = reading(&w.dew_point.metric.value)?;
    Ok(
        WeatherData {
            location,
            temperature: Some(temperature),
            feelslike: Some(feelslike),
            humidity: Some(humidity),
            wind_speed: Some(wind),
            gust_speed: Some(gust),
            pressure: Some(hpa_to_mmhg(pressure)),
            precip: None,
            cloud: Some(cloud),
            vis: Some(vis),
            uv: Some(uv),
            dev_point: Some(dew),
            description: Some(w.weather_text),
        },
    )
}

} // verus!
