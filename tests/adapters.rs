use weather_cli::accuweather;
use weather_cli::common::{ProviderErrors, WeatherData};
use weather_cli::openweathermap;
use weather_cli::weatherapi;

fn s(t: &str) -> String {
    t.to_string()
}

fn weatherapi_answer(wind: &str) -> weatherapi::ResponseWeather {
    weatherapi::ResponseWeather {
        location: weatherapi::ResponseLocation { name: s("Kyiv"), region: s("Kyiv"), country: s("Ukraine") },
        current: weatherapi::ResponseCurrent {
            temp_c: s("21.3"),
            feelslike_c: s("20"),
            humidity: s("40"),
            wind_kph: s(wind),
            gust_kph: s("36"),
            pressure_in: s("29.92"),
            precip_mm: s("0.0"),
            cloud: s("25"),
            vis_km: s("10"),
            uv: s("5"),
            condition: weatherapi::ResponseContition { text: s("Sunny") },
        },
    }
}

fn owm_answer(conditions: Vec<&str>) -> openweathermap::ResponseWeather {
    openweathermap::ResponseWeather {
        weather: conditions.into_iter().map(|c| openweathermap::WeatherInfo { main: s(c) }).collect(),
        main: openweathermap::MainInfo {
            temp: s("15.5"),
            feels_like: s("14"),
            temp_min: s("13"),
            temp_max: s("17"),
            pressure: s("1013"),
            humidity: s("70"),
        },
        visibility: s("10000"),
        wind: openweathermap::WindInfo { speed: s("3.6") },
        clouds: openweathermap::CloudsInfo { all: s("90") },
        name: s("London"),
    }
}

fn metric(v: &str) -> accuweather::Metric {
    accuweather::Metric { metric: accuweather::ValueMetric { value: s(v) } }
}

fn accu_answer() -> accuweather::ResponseWeather {
    accuweather::ResponseWeather {
        weather_text: s("Cloudy"),
        temperature: metric("5.1"),
        real_feel_temperature: metric("2"),
        relative_humidity: s("80"),
        dew_point: metric("1.5"),
        wind: accuweather::WindData { speed: metric("11.1") },
        wind_gust: accuweather::WindData { speed: metric("20.4") },
        uvindex: s("1"),
        uvindex_text: s("Low"),
        visibility: metric("16.1"),
        cloud_cover: s("100"),
        pressure: metric("1013"),
    }
}

fn same(a: &WeatherData, b: &WeatherData) -> bool {
    a.location == b.location
        && a.temperature == b.temperature
        && a.feelslike == b.feelslike
        && a.humidity == b.humidity
        && a.wind_speed == b.wind_speed
        && a.gust_speed == b.gust_speed
        && a.pressure == b.pressure
        && a.precip == b.precip
        && a.cloud == b.cloud
        && a.vis == b.vis
        && a.uv == b.uv
        && a.dev_point == b.dev_point
        && a.description == b.description
}

#[test]
fn weatherapi_converts_speed_and_pressure() {
    let d = weatherapi::to_weather_data(s("Kyiv, Ukraine"), weatherapi_answer("10")).ok().unwrap();
    assert_eq!(d.location, "Kyiv, Ukraine");
    assert_eq!(d.temperature, Some(21_300_000));
    assert_eq!(d.wind_speed, Some(2_777_777));
    assert_eq!(d.gust_speed, Some(10_000_000));
    assert_eq!(d.pressure, Some(759_968_000));
    assert_eq!(d.precip, Some(0));
    assert_eq!(d.vis, Some(10_000_000));
    assert_eq!(d.dev_point, None);
    assert_eq!(d.description, Some(s("Sunny")));
}

#[test]
fn weatherapi_bad_number_is_malformed() {
    let r = weatherapi::to_weather_data(s("Kyiv"), weatherapi_answer("fast"));
    assert!(matches!(r, Err(ProviderErrors::MalformedResponse(_))));
}

#[test]
fn openweathermap_converts_pressure_and_leaves_fields_absent() {
    let d = openweathermap::to_weather_data(s("London"), owm_answer(vec!["Rain", "Mist"])).ok().unwrap();
    assert_eq!(d.pressure, Some(759_814_629));
    assert_eq!(d.wind_speed, Some(3_600_000));
    assert_eq!(d.gust_speed, None);
    assert_eq!(d.uv, None);
    assert_eq!(d.dev_point, None);
    assert_eq!(d.precip, None);
    assert_eq!(d.description, Some(s("Rain")));
}

#[test]
fn openweathermap_empty_conditions_is_malformed() {
    let r = openweathermap::to_weather_data(s("London"), owm_answer(vec![]));
    assert!(matches!(r, Err(ProviderErrors::MalformedResponse(_))));
}

#[test]
fn accuweather_takes_first_conditions() {
    let mut second = accu_answer();
    second.weather_text = s("Snow");
    let d = accuweather::to_weather_data(s("Lviv"), vec![accu_answer(), second]).ok().unwrap();
    assert_eq!(d.description, Some(s("Cloudy")));
    assert_eq!(d.pressure, Some(759_814_629));
    assert_eq!(d.wind_speed, Some(11_100_000));
    assert_eq!(d.gust_speed, Some(20_400_000));
    assert_eq!(d.dev_point, Some(1_500_000));
    assert_eq!(d.uv, Some(1_000_000));
    assert_eq!(d.vis, Some(16_100_000));
    assert_eq!(d.cloud, Some(100_000_000));
    assert_eq!(d.precip, None);
}

#[test]
fn accuweather_empty_conditions_is_no_weather_data() {
    let r = accuweather::to_weather_data(s("Lviv"), vec![]);
    assert!(matches!(r, Err(ProviderErrors::NoWeatherData)));
}

#[test]
fn accuweather_missing_key_is_location_key_not_found() {
    let r = accuweather::location_key(accuweather::SearchResponse { key: None });
    assert!(matches!(r, Err(ProviderErrors::LocationKeyNotFound)));
    let r = accuweather::location_key(accuweather::SearchResponse { key: Some(s("324505")) });
    assert_eq!(r.ok(), Some(s("324505")));
}

#[test]
fn same_answer_gives_same_report() {
    let a = weatherapi::to_weather_data(s("Kyiv"), weatherapi_answer("10")).ok().unwrap();
    let b = weatherapi::to_weather_data(s("Kyiv"), weatherapi_answer("10")).ok().unwrap();
    assert!(same(&a, &b));
    let a = openweathermap::to_weather_data(s("London"), owm_answer(vec!["Rain"])).ok().unwrap();
    let b = openweathermap::to_weather_data(s("London"), owm_answer(vec!["Rain"])).ok().unwrap();
    assert!(same(&a, &b));
    let a = accuweather::to_weather_data(s("Lviv"), vec![accu_answer()]).ok().unwrap();
    let b = accuweather::to_weather_data(s("Lviv"), vec![accu_answer()]).ok().unwrap();
    assert!(same(&a, &b));
}

#[test]
fn report_renders_present_fields() {
    let d = weatherapi::to_weather_data(s("Kyiv"), weatherapi_answer("10")).ok().unwrap();
    assert_eq!(
        d.render(),
        "location: Kyiv\ntemperature: 21.3\nfeelslike: 20\nhumidity: 40\nwind_speed: 2.78\n\
         gust_speed: 10.00\npressure: 760\nprecip: 0\ncloud: 25\nvis: 10\nuv: 5\ndescription: Sunny\n"
    );
}

#[test]
fn report_renders_location_only_when_empty() {
    let d = WeatherData {
        location: s("Nowhere"),
        temperature: Some(-2_500_000),
        feelslike: None,
        humidity: None,
        wind_speed: None,
        gust_speed: None,
        pressure: None,
        precip: None,
        cloud: None,
        vis: None,
        uv: None,
        dev_point: None,
        description: None,
    };
    assert_eq!(d.render(), "location: Nowhere\ntemperature: -2.5\n");
}

#[test]
fn error_messages() {
    assert_eq!(ProviderErrors::ProviderStatus(404).message(), "Response status code: 404 Not Found");
    assert_eq!(ProviderErrors::ProviderStatus(200).message(), "Response status code: 200 OK");
    assert_eq!(ProviderErrors::ProviderStatus(42).message(), "Response status code: 42");
    assert_eq!(ProviderErrors::LocationKeyNotFound.message(), "Location key not found");
    assert_eq!(ProviderErrors::NoWeatherData.message(), "Error get weather data");
    assert_eq!(ProviderErrors::NotImplemented.message(), "Provider not implemented");
    assert_eq!(ProviderErrors::TransportFailure(s("timeout")).message(), "Request error: timeout");
    assert_eq!(ProviderErrors::GeocodingFailed(s("x")).message(), "Location error: x");
    assert_eq!(ProviderErrors::MalformedResponse(s("y")).message(), "JSON error: y");
}
