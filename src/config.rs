use vstd::prelude::*;
use crate::accuweather::AccuWeather;
use crate::common::ProviderErrors;
use crate::openweathermap::OpenWeatherMap;
use crate::query::Adapter;
use crate::weatherapi::WeatherApiCom;

verus! {

/// Available weather providers
#[derive(PartialEq, Eq, Structural, Clone, Copy, Debug)]
pub enum Providers {
    Weatherapi,
    Openweathermap,
    Accuweather,
    Aerisweather,
}

/// Name and API key of one provider.
pub struct ServiceConfig {
    pub name: String,
    pub api_key: String,
}

/// Fields from the configuration file
pub struct AppConfig {
    pub default_api: Providers,
    pub weatherapi: ServiceConfig,
    pub openweathermap: ServiceConfig,
    pub accuweather: ServiceConfig,
    pub aerisweather: ServiceConfig,
}

/// The name under which a provider is shown.
pub open spec fn display_name(p: Providers) -> Seq<char> {
    match p {
        Providers::Weatherapi => "WeatherApi"@,
        Providers::Openweathermap => "OpenWeatherMap"@,
        Providers::Accuweather => "AccuWeather"@,
        Providers::Aerisweather => "AerisWeather"@,
    }
}

fn empty_service() -> (r: ServiceConfig)
    ensures
        r.name@.len() == 0,
        r.api_key@.len() == 0,
{
    ServiceConfig { name: String::new(), api_key: String::new() }
}

impl AppConfig {
    /// The entry of a provider.
    pub open spec fn service(&self, p: Providers) -> ServiceConfig {
        match p {
            Providers::Weatherapi => self.weatherapi,
            Providers::Openweathermap => self.openweathermap,
            Providers::Accuweather => self.accuweather,
            Providers::Aerisweather => self.aerisweather,
        }
    }

    /// The configuration written when none exists: WeatherApi by default, all
    /// names and keys empty.
    pub fn default_config() -> (r: AppConfig)
        ensures
            r.default_api == Providers::Weatherapi,
            forall|p: Providers| #[trigger] r.service(p).name@.len() == 0 && r.service(p).api_key@.len() == 0,
    {
        AppConfig {
            default_api: Providers::Weatherapi,
            weatherapi: empty_service(),
            openweathermap: empty_service(),
            accuweather: empty_service(),
            aerisweather: empty_service(),
        }
    }

    /// Stores a new API key for the provider, and the provider's name beside
    /// it. An empty key changes nothing. Returns whether the entry changed.
    pub fn update_api_key(&mut self, provider: &Providers, new_api_key: String) -> (r: bool)
        ensures
            r == (new_api_key@.len() > 0),
            final(self).default_api == old(self).default_api,
            forall|p: Providers| p != *provider ==> #[trigger] final(self).service(p) == old(self).service(p),
            r ==> final(self).service(*provider).api_key@ == new_api_key@
                && final(self).service(*provider).name@ == display_name(*provider),
            !r ==> final(self).service(*provider) == old(self).service(*provider),
    {
        if new_api_key.as_str().is_empty() {
            return false;
        }
        let slot = match provider {
            Providers::Weatherapi => &mut self.weatherapi,
            Providers::Openweathermap => &mut self.openweathermap,
            Providers::Accuweather => &mut self.accuweather,
            Providers::Aerisweather => &mut self.aerisweather,
        };
        let name = match provider {
            Providers::Weatherapi => String::from_str("WeatherApi"),
            Providers::Openweathermap => String::from_str("OpenWeatherMap"),
            Providers::Accuweather => String::from_str("AccuWeather"),
            Providers::Aerisweather => String::from_str("AerisWeather"),
        };
        slot.api_key = new_api_key;
        slot.name = name;
        true
    }

    /// Sets the default weather provider
    pub fn set_default_provider(&mut self, provider: &Providers)
        ensures
            final(self).default_api == *provider,
            forall|p: Providers| #[trigger] final(self).service(p) == old(self).service(p),
    {
        self.default_api = *provider;
    }

    /// The client of the default provider, bound to its API key, and the
    /// provider's stored name. AerisWeather has no client.
    pub fn select_provider(&self) -> (r: Result<(Adapter, String), ProviderErrors>)
        ensures
            self.default_api == Providers::Aerisweather <==> r matches Err(ProviderErrors::NotImplemented),
            r is Err ==> r matches Err(ProviderErrors::NotImplemented),
            r matches Ok((a, name)) ==> name@ == self.service(self.default_api).name@ && match a {
                Adapter::WeatherApi(c) => self.default_api == Providers::Weatherapi
                    && c.api_key@ == self.weatherapi.api_key@,
                Adapter::OpenWeatherMap(c) => self.default_api == Providers::Openweathermap
                    && c.api_key@ == self.openweathermap.api_key@,
                Adapter::AccuWeather(c) => self.default_api == Providers::Accuweather
                    && c.api_key@ == self.accuweather.api_key@,
            },
    {
        match self.default_api {
            Providers::Weatherapi => Ok(
                (
                    Adapter::WeatherApi(WeatherApiCom { api_key: self.weatherapi.api_key.clone() }),
                    self.weatherapi.name.clone(),
                ),
            ),
            Providers::Openweathermap => Ok(
                (
                    Adapter::OpenWeatherMap(
                        OpenWeatherMap { api_key: self.openweathermap.api_key.clone() },
                    ),
                    self.openweathermap.name.clone(),
                ),
            ),
            Providers::Accuweather => Ok(
                (
                    Adapter::AccuWeather(AccuWeather { api_key: self.accuweather.api_key.clone() }),
                    self.accuweather.name.clone(),
                ),
            ),
            Providers::Aerisweather => Err(ProviderErrors::NotImplemented),
        }
    }
}

} // verus!
