use weather_cli::accuweather::{AccuWeather, SearchResponse};
use weather_cli::common::ProviderErrors;
use weather_cli::config::{AppConfig, Providers};
use weather_cli::coordinates::{geocode_url, pick_location, Location};
use weather_cli::openweathermap::{self, OpenWeatherMap};
use weather_cli::query::{Action, Adapter, Event, Query, Schema};
use weather_cli::weatherapi::WeatherApiCom;

fn s(t: &str) -> String {
    t.to_string()
}

fn place() -> Location {
    Location { lat: s("50.45"), lon: s("30.52"), display_name: s("Kyiv, Ukraine") }
}

/// Runs a query to the point where the provider's first request is asked for.
fn located(adapter: Adapter) -> (Query, Action) {
    let (q, a) = Query::start(adapter, "Kyiv");
    assert!(matches!(a, Action::Geocode(_)));
    let (q, a) = q.step(Event::Reply(200, s("[]")));
    assert!(matches!(a, Action::Decode(Schema::Places, _)));
    q.step(Event::Places(vec![place()]))
}

fn url_of(a: &Action) -> String {
    match a {
        Action::Fetch(u) => u.clone(),
        Action::Geocode(u) => u.clone(),
        _ => panic!("no request"),
    }
}

#[test]
fn geocode_url_encodes_address() {
    assert_eq!(
        geocode_url("New York, NY"),
        "https://nominatim.openstreetmap.org/search?q=New%20York%2C%20NY&format=json"
    );
}

#[test]
fn empty_geocoder_answer_is_geocoding_failure() {
    assert!(matches!(pick_location(vec![]), Err(ProviderErrors::GeocodingFailed(_))));
    let bad = Location { lat: s("north"), lon: s("1"), display_name: s("x") };
    assert!(matches!(pick_location(vec![bad]), Err(ProviderErrors::GeocodingFailed(_))));
}

#[test]
fn weatherapi_query_builds_request() {
    let (_, a) = located(Adapter::WeatherApi(WeatherApiCom { api_key: s("KEY") }));
    assert_eq!(url_of(&a), "http://api.weatherapi.com/v1/current.json?key=KEY&q=50.45,30.52");
}

#[test]
fn failed_status_is_provider_status_without_decoding() {
    let (q, _) = located(Adapter::OpenWeatherMap(OpenWeatherMap { api_key: s("K") }));
    let (q, a) = q.step(Event::Reply(401, s("{\"cod\":401}")));
    assert!(matches!(a, Action::Finish(Err(ProviderErrors::ProviderStatus(401)))));
    let (_, a) = q.step(Event::Reply(200, s("{}")));
    assert!(matches!(a, Action::Finish(Err(ProviderErrors::MalformedResponse(_)))));
}

#[test]
fn geocoder_failure_stops_before_provider() {
    let (q, _) = Query::start(Adapter::WeatherApi(WeatherApiCom { api_key: s("K") }), "Atlantis");
    let (_, a) = q.step(Event::Reply(500, s("")));
    match a {
        Action::Finish(Err(ProviderErrors::GeocodingFailed(m))) => assert_eq!(m, "Location not found"),
        _ => panic!("expected a geocoding failure"),
    }
    let (q, _) = Query::start(Adapter::WeatherApi(WeatherApiCom { api_key: s("K") }), "Atlantis");
    let (q, _) = q.step(Event::Reply(200, s("[]")));
    let (_, a) = q.step(Event::Places(vec![]));
    assert!(matches!(a, Action::Finish(Err(ProviderErrors::GeocodingFailed(_)))));
}

#[test]
fn transport_failure_is_reported() {
    let (q, _) = located(Adapter::WeatherApi(WeatherApiCom { api_key: s("K") }));
    let (_, a) = q.step(Event::Transport(s("connection refused")));
    match a {
        Action::Finish(Err(ProviderErrors::TransportFailure(m))) => assert_eq!(m, "connection refused"),
        _ => panic!("expected a transport failure"),
    }
}

#[test]
fn accuweather_two_step_query() {
    let (q, a) = located(Adapter::AccuWeather(AccuWeather { api_key: s("K") }));
    assert_eq!(
        url_of(&a),
        "http://dataservice.accuweather.com/locations/v1/cities/geoposition/search?apikey=K&q=50.45,30.52"
    );
    let (q, a) = q.step(Event::Reply(200, s("{\"Key\":\"324505\"}")));
    assert!(matches!(a, Action::Decode(Schema::AccuSearch, _)));
    let (q, a) = q.step(Event::Search(SearchResponse { key: Some(s("324505")) }));
    assert_eq!(
        url_of(&a),
        "http://dataservice.accuweather.com/currentconditions/v1/324505?apikey=K&language=uk-ua&details=true"
    );
    let (q, a) = q.step(Event::Reply(200, s("[]")));
    assert!(matches!(a, Action::Decode(Schema::AccuConditions, _)));
    let (_, a) = q.step(Event::Conditions(vec![]));
    assert!(matches!(a, Action::Finish(Err(ProviderErrors::NoWeatherData))));
}

#[test]
fn accuweather_missing_key_stops_before_conditions() {
    let (q, _) = located(Adapter::AccuWeather(AccuWeather { api_key: s("K") }));
    let (q, _) = q.step(Event::Reply(200, s("{}")));
    let (_, a) = q.step(Event::Search(SearchResponse { key: None }));
    assert!(matches!(a, Action::Finish(Err(ProviderErrors::LocationKeyNotFound))));
}

#[test]
fn openweathermap_query_reports() {
    let (q, a) = located(Adapter::OpenWeatherMap(OpenWeatherMap { api_key: s("K") }));
    assert_eq!(
        url_of(&a),
        "https://api.openweathermap.org/data/2.5/weather?units=metric&appid=K&lat=50.45&lon=30.52"
    );
    let (q, a) = q.step(Event::Reply(200, s("{}")));
    assert!(matches!(a, Action::Decode(Schema::OpenWeatherMap, _)));
    let w = openweathermap::ResponseWeather {
        weather: vec![],
        main: openweathermap::MainInfo {
            temp: s("1"),
            feels_like: s("1"),
            temp_min: s("1"),
            temp_max: s("1"),
            pressure: s("1000"),
            humidity: s("50"),
        },
        visibility: s("1000"),
        wind: openweathermap::WindInfo { speed: s("1") },
        clouds: openweathermap::CloudsInfo { all: s("1") },
        name: s("Kyiv"),
    };
    let (_, a) = q.step(Event::OpenWeatherMap(w));
    assert!(matches!(a, Action::Finish(Err(ProviderErrors::MalformedResponse(_)))));
}

#[test]
fn aerisweather_is_not_implemented() {
    let mut c = AppConfig::default_config();
    c.set_default_provider(&Providers::Aerisweather);
    assert!(matches!(c.select_provider(), Err(ProviderErrors::NotImplemented)));
}

#[test]
fn selection_binds_stored_key() {
    let mut c = AppConfig::default_config();
    assert!(c.update_api_key(&Providers::Accuweather, s("abc")));
    c.set_default_provider(&Providers::Accuweather);
    match c.select_provider() {
        Ok((Adapter::AccuWeather(a), name)) => {
            assert_eq!(a.api_key, "abc");
            assert_eq!(name, "AccuWeather");
        }
        _ => panic!("expected AccuWeather"),
    }
}

#[test]
fn empty_key_changes_nothing() {
    let mut c = AppConfig::default_config();
    assert!(!c.update_api_key(&Providers::Weatherapi, s("")));
    assert_eq!(c.weatherapi.api_key, "");
    assert_eq!(c.weatherapi.name, "");
    assert!(c.update_api_key(&Providers::Weatherapi, s("k1")));
    assert_eq!(c.weatherapi.api_key, "k1");
    assert_eq!(c.weatherapi.name, "WeatherApi");
    assert_eq!(c.openweathermap.api_key, "");
    assert_eq!(c.default_api, Providers::Weatherapi);
}
