use vstd::prelude::*;
use crate::decimal::{parse_reading, reading_of};
use crate::units::in_range;
use crate::text::{
    nat_text, push_nat, push_reading, push_reading_0, push_reading_2, reading_text, reading_text_0,
    reading_text_2,
};

verus! {

/// Weather data to display to the user. Readings count millionths of their unit.
pub struct WeatherData {
    /// Location
    pub location: String,
    /// Temperature in °C
    pub temperature: Option<i64>,
    /// Feels like temperature in °C
    pub feelslike: Option<i64>,
    /// Relative humidity in %
    pub humidity: Option<i64>,
    /// Wind speed in m/s
    pub wind_speed: Option<i64>,
    /// Wind gusts speed in m/s
    pub gust_speed: Option<i64>,
    /// Pressure in millimeters of mercury
    pub pressure: Option<i64>,
    /// Precipitation in mm
    pub precip: Option<i64>,
    /// Cloudiness in %
    pub cloud: Option<i64>,
    /// Visibility in km
    pub vis: Option<i64>,
    /// UV index
    pub uv: Option<i64>,
    /// Dewpoint in °C
    pub dev_point: Option<i64>,
    /// Weather description
    pub description: Option<String>,
}

/// Errors in receiving data from weather providers
pub enum ProviderErrors {
    /// The address could not be resolved to coordinates
    GeocodingFailed(String),
    /// The request could not be sent or its answer not read
    TransportFailure(String),
    /// The provider answered with a status code outside 200..=299
    ProviderStatus(u16),
    /// The body did not have the expected shape
    MalformedResponse(String),
    /// The location search gave no location key
    LocationKeyNotFound,
    /// The conditions list was empty
    NoWeatherData,
    /// The selected provider has no implementation
    NotImplemented,
}

pub open spec fn as_int(o: Option<i64>) -> Option<int> {
    match o {
        Some(v) => Some(v as int),
        None => None,
    }
}

pub open spec fn text_of(o: Option<String>) -> Option<Seq<char>> {
    match o {
        Some(s) => Some(s@),
        None => None,
    }
}

/// The value of a reading that is known to be well formed.
pub open spec fn value_of(s: Seq<char>) -> int {
    reading_of(s)->Some_0
}

/// Two reports hold the same location, readings and description.
pub open spec fn same_report(a: WeatherData, b: WeatherData) -> bool {
    &&& a.location@ == b.location@
    &&& a.temperature == b.temperature
    &&& a.feelslike == b.feelslike
    &&& a.humidity == b.humidity
    &&& a.wind_speed == b.wind_speed
    &&& a.gust_speed == b.gust_speed
    &&& a.pressure == b.pressure
    &&& a.precip == b.precip
    &&& a.cloud == b.cloud
    &&& a.vis == b.vis
    &&& a.uv == b.uv
    &&& a.dev_point == b.dev_point
    &&& text_of(a.description) == text_of(b.description)
}

/// Reads one numeric field of a provider's answer.
pub fn reading(s: &String) -> (r: Result<i64, ProviderErrors>)
    ensures
        r matches Ok(v) ==> reading_of(s@) == Some(v as int) && in_range(v as int),
        r is Err ==> reading_of(s@) is None && r matches Err(ProviderErrors::MalformedResponse(_)),
{
    match parse_reading(s.as_str()) {
        Some(v) => Ok(v),
        None => {
            let mut m = String::from_str("not a number: ");
            m.append(s.as_str());
            Err(ProviderErrors::MalformedResponse(m))
        },
    }
}

pub open spec fn line_full(label: Seq<char>, v: Option<i64>) -> Seq<char> {
    match v {
        Some(x) => label + reading_text(x as int) + "\n"@,
        None => Seq::empty(),
    }
}

pub open spec fn line_2(label: Seq<char>, v: Option<i64>) -> Seq<char> {
    match v {
        Some(x) => label + reading_text_2(x as int) + "\n"@,
        None => Seq::empty(),
    }
}

pub open spec fn line_0(label: Seq<char>, v: Option<i64>) -> Seq<char> {
    match v {
        Some(x) => label + reading_text_0(x as int) + "\n"@,
        None => Seq::empty(),
    }
}

pub open spec fn line_text(label: Seq<char>, v: Option<String>) -> Seq<char> {
    match v {
        Some(t) => label + t@ + "\n"@,
        None => Seq::empty(),
    }
}

/// The report as shown to the user: one line per present field; speeds with
/// two decimal places, pressure as a whole number.
pub open spec fn report_text(d: WeatherData) -> Seq<char> {
    "location: "@ + d.location@ + "\n"@ + line_full("temperature: "@, d.temperature) + line_full(
        "feelslike: "@,
        d.feelslike,
    ) + line_full("humidity: "@, d.humidity) + line_2("wind_speed: "@, d.wind_speed) + line_2(
        "gust_speed: "@,
        d.gust_speed,
    ) + line_0("pressure: "@, d.pressure) + line_full("precip: "@, d.precip) + line_full(
        "cloud: "@,
        d.cloud,
    ) + line_full("vis: "@, d.vis) + line_full("uv: "@, d.uv) + line_text(
        "description: "@,
        d.description,
    )
}

fn push_line_full(out: &mut String, label: &str, v: Option<i64>)
    ensures
        final(out)@ == old(out)@ + line_full(label@, v),
{
    if let Some(x) = v {
        out.append(label);
        push_reading(out, x);
        out.append("\n");
    }
    assert(final(out)@ =~= old(out)@ + line_full(label@, v));
}

fn push_line_2(out: &mut String, label: &str, v: Option<i64>)
    ensures
        final(out)@ == old(out)@ + line_2(label@, v),
{
    if let Some(x) = v {
        out.append(label);
        push_reading_2(out, x);
        out.append("\n");
    }
    assert(final(out)@ =~= old(out)@ + line_2(label@, v));
}

fn push_line_0(out: &mut String, label: &str, v: Option<i64>)
    ensures
        final(out)@ == old(out)@ + line_0(label@, v),
{
    if let Some(x) = v {
        out.append(label);
        push_reading_0(out, x);
        out.append("\n");
    }
    assert(final(out)@ =~= old(out)@ + line_0(label@, v));
}

impl WeatherData {
    /// The report as shown to the user.
    pub fn render(&self) -> (r: String)
        ensures
            r@ == report_text(*self),
    {
        let mut out = String::from_str("location: ");
        out.append(self.location.as_str());
        out.append("\n");
        push_line_full(&mut out, "temperature: ", self.temperature);
        push_line_full(&mut out, "feelslike: ", self.feelslike);
        push_line_full(&mut out, "humidity: ", self.humidity);
        push_line_2(&mut out, "wind_speed: ", self.wind_speed);
        push_line_2(&mut out, "gust_speed: ", self.gust_speed);
        push_line_0(&mut out, "pressure: ", self.pressure);
        push_line_full(&mut out, "precip: ", self.precip);
        push_line_full(&mut out, "cloud: ", self.cloud);
        push_line_full(&mut out, "vis: ", self.vis);
        push_line_full(&mut out, "uv: ", self.uv);
        let ghost before = out@;
        match &self.description {
            Some(t) => {
                out.append("description: ");
                out.append(t.as_str());
                out.append("\n");
            },
            None => {},
        }
        assert(out@ =~= before + line_text("description: "@, self.description));
        assert(out@ =~= report_text(*self));
        out
    }
}

/// What `reqwest::StatusCode` shows for a status code.
pub uninterp spec fn status_shown(code: u16) -> Seq<char>;

/// Relies on `reqwest::StatusCode` (from the `http` crate): `from_u16` accepts
/// exactly the codes 100 to 999, and `Display` shows the code with its
/// canonical reason phrase; the text depends on the code alone.
#[verifier::external_body]
fn status_text(code: u16) -> (r: Option<String>)
    ensures
        r is Some <==> 100 <= code <= 999,
        r matches Some(t) ==> t@ == status_shown(code),
{
    reqwest::StatusCode::from_u16(code).ok().map(|s| s.to_string())
}

/// The message shown for an error.
pub open spec fn error_text(e: ProviderErrors) -> Seq<char> {
    match e {
        ProviderErrors::GeocodingFailed(m) => "Location error: "@ + m@,
        ProviderErrors::TransportFailure(m) => "Request error: "@ + m@,
        ProviderErrors::ProviderStatus(c) => "Response status code: "@ + if 100 <= c <= 999 {
            status_shown(c)
        } else {
            nat_text(c as nat)
        },
        ProviderErrors::MalformedResponse(m) => "JSON error: "@ + m@,
        ProviderErrors::LocationKeyNotFound => "Location key not found"@,
        ProviderErrors::NoWeatherData => "Error get weather data"@,
        ProviderErrors::NotImplemented => "Provider not implemented"@,
    }
}

impl ProviderErrors {
    /// The message shown for the error.
    pub fn message(&self) -> (r: String)
        ensures
            r@ == error_text(*self),
    {
        match self {
            ProviderErrors::GeocodingFailed(m) => String::from_str("Location error: ").concat(m.as_str()),
            ProviderErrors::TransportFailure(m) => String::from_str("Request error: ").concat(m.as_str()),
            ProviderErrors::ProviderStatus(c) => {
                let mut out = String::from_str("Response status code: ");
                match status_text(*c) {
                    Some(t) => out.append(t.as_str()),
                    None => push_nat(&mut out, *c as u64),
                }
                out
            },
            ProviderErrors::MalformedResponse(m) => String::from_str("JSON error: ").concat(m.as_str()),
            ProviderErrors::LocationKeyNotFound => String::from_str("Location key not found"),
            ProviderErrors::NoWeatherData => String::from_str("Error get weather data"),
            ProviderErrors::NotImplemented => String::from_str("Provider not implemented"),
        }
    }
}

/// A status code of success.
pub open spec fn is_success_spec(status: u16) -> bool {
    200 <= status <= 299
}

pub fn is_success(status: u16) -> (r: bool)
    ensures
        r == is_success_spec(status),
{
    200 <= status && status <= 299
}

} // verus!
