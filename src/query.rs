use vstd::prelude::*;
use crate::accuweather;
use crate::accuweather::{location_key, AccuWeather, SearchResponse};
use crate::common::{is_success, is_success_spec, ProviderErrors, WeatherData};
use crate::coordinates::{geocode_url, geocode_url_spec, pick_location, valid_place, Location};
use crate::openweathermap;
use crate::openweathermap::OpenWeatherMap;
use crate::weatherapi;
use crate::weatherapi::WeatherApiCom;

verus! {

/// The provider that answers a query, with its API key.
pub enum Adapter {
    WeatherApi(WeatherApiCom),
    OpenWeatherMap(OpenWeatherMap),
    AccuWeather(AccuWeather),
}

/// Where a query stands: which answer it waits for next.
pub enum Stage {
    /// The geocoder's reply
    Locating,
    /// The places decoded from the geocoder's reply
    DecodingPlaces,
    /// The reply of the weather request
    Fetching(Location),
    /// The weather decoded from that reply
    DecodingWeather(Location),
    /// The reply of the location key search
    Searching(Location),
    /// The search answer decoded from that reply
    DecodingSearch(Location),
    /// The reply of the conditions request
    FetchingConditions(Location),
    /// The conditions list decoded from that reply
    DecodingConditions(Location),
    /// Nothing: the query has finished
    Done,
}

/// The shape that a reply body is to be decoded as.
#[derive(PartialEq, Eq, Structural, Clone, Copy, Debug)]
pub enum Schema {
    Places,
    WeatherApi,
    OpenWeatherMap,
    AccuSearch,
    AccuConditions,
}

/// What the caller is to do next.
pub enum Action {
    /// Send a GET request to the geocoder
    Geocode(String),
    /// Send a GET request to the weather provider
    Fetch(String),
    /// Decode a reply body
    Decode(Schema, String),
    /// Stop with this result
    Finish(Result<WeatherData, ProviderErrors>),
}

/// What happened after the last action.
pub enum Event {
    /// The request could not be sent or its reply not read
    Transport(String),
    /// A reply arrived: its status code and body
    Reply(u16, String),
    /// The body did not decode as the schema asked for
    DecodeFailed(String),
    /// Decoded geocoder reply
    Places(Vec<Location>),
    /// Decoded api.weatherapi.com reply
    WeatherApi(weatherapi::ResponseWeather),
    /// Decoded api.openweathermap.org reply
    OpenWeatherMap(openweathermap::ResponseWeather),
    /// Decoded AccuWeather location search reply
    Search(SearchResponse),
    /// Decoded AccuWeather conditions reply
    Conditions(Vec<accuweather::ResponseWeather>),
}

/// One request for the weather at an address, run as a sequence of steps.
pub struct Query {
    pub adapter: Adapter,
    pub stage: Stage,
}

pub open spec fn awaits_reply(s: Stage) -> bool {
    s is Locating || s is Fetching || s is Searching || s is FetchingConditions
}

pub open spec fn awaits_decode(s: Stage) -> bool {
    s is DecodingPlaces || s is DecodingWeather || s is DecodingSearch || s is DecodingConditions
}

/// The stage that decodes the reply awaited in `s`.
pub open spec fn decoding_stage(s: Stage) -> Stage {
    match s {
        Stage::Locating => Stage::DecodingPlaces,
        Stage::Fetching(l) => Stage::DecodingWeather(l),
        Stage::Searching(l) => Stage::DecodingSearch(l),
        Stage::FetchingConditions(l) => Stage::DecodingConditions(l),
        _ => Stage::Done,
    }
}

/// The schema of the reply awaited in `s`.
pub open spec fn schema_of(s: Stage, a: Adapter) -> Schema {
    match s {
        Stage::Locating => Schema::Places,
        Stage::Searching(_) => Schema::AccuSearch,
        Stage::FetchingConditions(_) => Schema::AccuConditions,
        _ => if a is OpenWeatherMap {
            Schema::OpenWeatherMap
        } else {
            Schema::WeatherApi
        },
    }
}

/// The first request for the weather at `loc`, and the stage that awaits its reply.
pub open spec fn first_request(a: Adapter, loc: Location, act: Action, next: Stage) -> bool {
    match a {
        Adapter::WeatherApi(p) => act matches Action::Fetch(u) && u@
            == weatherapi::weather_url_spec(p.api_key@, loc.lat@, loc.lon@) && next
            == Stage::Fetching(loc),
        Adapter::OpenWeatherMap(p) => act matches Action::Fetch(u) && u@
            == openweathermap::weather_url_spec(p.api_key@, loc.lat@, loc.lon@) && next
            == Stage::Fetching(loc),
        Adapter::AccuWeather(p) => act matches Action::Fetch(u) && u@
            == accuweather::search_url_spec(p.api_key@, loc.lat@, loc.lon@) && next
            == Stage::Searching(loc),
    }
}

/// The query finishes with a geocoding failure that carries `msg`.
pub open spec fn geocoding_failed(act: Action, msg: Seq<char>) -> bool {
    act matches Action::Finish(Err(ProviderErrors::GeocodingFailed(m))) && m@ == msg
}

/// The query finishes because an event came that the stage does not wait for.
pub open spec fn unexpected_event(act: Action) -> bool {
    act matches Action::Finish(Err(ProviderErrors::MalformedResponse(m))) && m@
        == "unexpected event"@
}

/// The event is one that the stage waits for, with the adapter in use.
pub open spec fn fits(s: Stage, a: Adapter, e: Event) -> bool {
    ||| awaits_reply(s) && (e is Transport || e is Reply)
    ||| awaits_decode(s) && e is DecodeFailed
    ||| s is DecodingPlaces && e is Places
    ||| s is DecodingWeather && a is WeatherApi && e is WeatherApi
    ||| s is DecodingWeather && a is OpenWeatherMap && e is OpenWeatherMap
    ||| s is DecodingSearch && e is Search
    ||| s is DecodingConditions && e is Conditions
}

impl Query {
    /// The stages of the location search and the conditions request belong to
    /// AccuWeather; the single weather request to the other providers.
    pub open spec fn wf(&self) -> bool {
        &&& (self.stage is Searching || self.stage is DecodingSearch || self.stage is FetchingConditions
            || self.stage is DecodingConditions) ==> self.adapter is AccuWeather
        &&& (self.stage is Fetching || self.stage is DecodingWeather) ==> !(self.adapter is AccuWeather)
    }

    /// Starts a query for the weather at `address`: its first action asks the geocoder.
    pub fn start(adapter: Adapter, address: &str) -> (r: (Query, Action))
        ensures
            r.0.adapter == adapter,
            r.0.stage is Locating,
            r.0.wf(),
            r.1 matches Action::Geocode(u) && u@ == geocode_url_spec(address@),
    {
        (Query { adapter, stage: Stage::Locating }, Action::Geocode(geocode_url(address)))
    }

    /// Takes the next event and gives the next action. A failure at any step
    /// finishes the query with that error; no request follows it.
    pub fn step(self, event: Event) -> (r: (Query, Action))
        ensures
            r.0.adapter == self.adapter,
            r.1 is Finish <==> r.0.stage is Done,
            self.wf() ==> r.0.wf(),
            !fits(self.stage, self.adapter, event) ==> unexpected_event(r.1),
            // a request could not be made
            awaits_reply(self.stage) ==> (match event {
                Event::Transport(m0) => if self.stage is Locating {
                    geocoding_failed(r.1, m0@)
                } else {
                    r.1 matches Action::Finish(Err(ProviderErrors::TransportFailure(m))) && m == m0
                },
                _ => true,
            }),
            // a reply with a status of failure is not decoded; one of success is
            awaits_reply(self.stage) ==> (match event {
                Event::Reply(code, body) => if !is_success_spec(code) {
                    if self.stage is Locating {
                        geocoding_failed(r.1, "Location not found"@)
                    } else {
                        r.1 == Action::Finish(Err(ProviderErrors::ProviderStatus(code)))
                    }
                } else {
                    r.1 matches Action::Decode(s, b) && s == schema_of(self.stage, self.adapter)
                        && b == body && r.0.stage == decoding_stage(self.stage)
                },
                _ => true,
            }),
            awaits_decode(self.stage) ==> (match event {
                Event::DecodeFailed(m0) => if self.stage is DecodingPlaces {
                    geocoding_failed(r.1, m0@)
                } else {
                    r.1 matches Action::Finish(Err(ProviderErrors::MalformedResponse(m))) && m == m0
                },
                _ => true,
            }),
            // the best place found leads to the provider's first request
            self.stage is DecodingPlaces ==> (match event {
                Event::Places(v) => if v@.len() > 0 && valid_place(v@[0]) {
                    first_request(self.adapter, v@[0], r.1, r.0.stage)
                } else if v@.len() == 0 {
                    geocoding_failed(r.1, "Location not found"@)
                } else {
                    geocoding_failed(r.1, "Location has no coordinates"@)
                },
                _ => true,
            }),
            // the location key leads to the conditions request
            (match (self.stage, self.adapter, event) {
                (Stage::DecodingSearch(loc), Adapter::AccuWeather(p), Event::Search(s)) => match s.key {
                    Some(k) => r.1 matches Action::Fetch(u) && u@ == accuweather::conditions_url_spec(
                        k@,
                        p.api_key@,
                    ) && r.0.stage == Stage::FetchingConditions(loc),
                    None => r.1 == Action::Finish(Err(ProviderErrors::LocationKeyNotFound)),
                },
                _ => true,
            }),
            // decoded weather gives the report
            (match (self.stage, self.adapter, event) {
                (Stage::DecodingWeather(loc), Adapter::WeatherApi(_), Event::WeatherApi(w)) => {
                    r.1 matches Action::Finish(res) && (res is Ok <==> weatherapi::readings_valid(
                        w.current,
                    )) && (res matches Ok(d) ==> weatherapi::report_matches(
                        d,
                        loc.display_name@,
                        w,
                    )) && (res matches Err(e) ==> e is MalformedResponse)
                },
                (
                    Stage::DecodingWeather(loc),
                    Adapter::OpenWeatherMap(_),
                    Event::OpenWeatherMap(w),
                ) => {
                    r.1 matches Action::Finish(res) && (res is Ok <==> openweathermap::readings_valid(w)
                        && w.weather@.len() > 0) && (res matches Ok(d)
                        ==> openweathermap::report_matches(d, loc.display_name@, w)) && (
                    res matches Err(e) ==> e is MalformedResponse)
                },
                (Stage::DecodingConditions(loc), _, Event::Conditions(list)) => {
                    r.1 matches Action::Finish(res) && (list@.len() == 0 ==> res matches Err(
                        ProviderErrors::NoWeatherData,
                    )) && (list@.len() > 0 ==> (res is Ok <==> accuweather::readings_valid(list@[0]))
                        && (res matches Ok(d) ==> accuweather::report_matches(
                        d,
                        loc.display_name@,
                        list@[0],
                    )) && (res matches Err(e) ==> e is MalformedResponse))
                },
                _ => true,
            }),
    {
        let adapter = self.adapter;
        let stage = self.stage;
        let unexpected = Action::Finish(
            Err(ProviderErrors::MalformedResponse(String::from_str("unexpected event"))),
        );
        match event {
            Event::Transport(m) => {
                let act = match stage {
                    Stage::Locating => Action::Finish(Err(ProviderErrors::GeocodingFailed(m))),
                    Stage::Fetching(_) | Stage::Searching(_) | Stage::FetchingConditions(_) => {
                        Action::Finish(Err(ProviderErrors::TransportFailure(m)))
                    },
                    _ => unexpected,
                };
                (Query { adapter, stage: Stage::Done }, act)
            },
            Event::Reply(code, body) => {
                let ok = is_success(code);
                match stage {
                    Stage::Locating => {
                        if ok {
                            (
                                Query { adapter, stage: Stage::DecodingPlaces },
                                Action::Decode(Schema::Places, body),
                            )
                        } else {
                            (
                                Query { adapter, stage: Stage::Done },
                                Action::Finish(
                                    Err(
                                        ProviderErrors::GeocodingFailed(
                                            String::from_str("Location not found"),
                                        ),
                                    ),
                                ),
                            )
                        }
                    },
                    Stage::Fetching(l) => {
                        if ok {
                            let schema = match adapter {
                                Adapter::OpenWeatherMap(_) => Schema::OpenWeatherMap,
                                _ => Schema::WeatherApi,
                            };
                            (
                                Query { adapter, stage: Stage::DecodingWeather(l) },
                                Action::Decode(schema, body),
                            )
                        } else {
                            (
                                Query { adapter, stage: Stage::Done },
                                Action::Finish(Err(ProviderErrors::ProviderStatus(code))),
                            )
                        }
                    },
                    Stage::Searching(l) => {
                        if ok {
                            (
                                Query { adapter, stage: Stage::DecodingSearch(l) },
                                Action::Decode(Schema::AccuSearch, body),
                            )
                        } else {
                            (
                                Query { adapter, stage: Stage::Done },
                                Action::Finish(Err(ProviderErrors::ProviderStatus(code))),
                            )
                        }
                    },
                    Stage::FetchingConditions(l) => {
                        if ok {
                            (
                                Query { adapter, stage: Stage::DecodingConditions(l) },
                                Action::Decode(Schema::AccuConditions, body),
                            )
                        } else {
                            (
                                Query { adapter, stage: Stage::Done },
                                Action::Finish(Err(ProviderErrors::ProviderStatus(code))),
                            )
                        }
                    },
                    _ => (Query { adapter, stage: Stage::Done }, unexpected),
                }
            },
            Event::DecodeFailed(m) => {
                let act = match stage {
                    Stage::DecodingPlaces => Action::Finish(
                        Err(ProviderErrors::GeocodingFailed(m)),
                    ),
                    Stage::DecodingWeather(_)
                    | Stage::DecodingSearch(_)
                    | Stage::DecodingConditions(_) => Action::Finish(
                        Err(ProviderErrors::MalformedResponse(m)),
                    ),
                    _ => unexpected,
                };
                (Query { adapter, stage: Stage::Done }, act)
            },
            Event::Places(v) => {
                match stage {
                    Stage::DecodingPlaces => match pick_location(v) {
                        Ok(loc) => {
                            let url = match &adapter {
                                Adapter::WeatherApi(p) => p.weather_url(&loc),
                                Adapter::OpenWeatherMap(p) => p.weather_url(&loc),
                                Adapter::AccuWeather(p) => p.search_url(&loc),
                            };
                            let next = match adapter {
                                Adapter::AccuWeather(_) => Stage::Searching(loc),
                                _ => Stage::Fetching(loc),
                            };
                            (Query { adapter, stage: next }, Action::Fetch(url))
                        },
                        Err(e) => (Query { adapter, stage: Stage::Done }, Action::Finish(Err(e))),
                    },
                    _ => (Query { adapter, stage: Stage::Done }, unexpected),
                }
            },
            Event::WeatherApi(w) => {
                match (stage, &adapter) {
                    (Stage::DecodingWeather(l), Adapter::WeatherApi(_)) => {
                        let res = weatherapi::to_weather_data(l.display_name, w);
                        (Query { adapter, stage: Stage::Done }, Action::Finish(res))
                    },
                    _ => (Query { adapter, stage: Stage::Done }, unexpected),
                }
            },
            Event::OpenWeatherMap(w) => {
                match (stage, &adapter) {
                    (Stage::DecodingWeather(l), Adapter::OpenWeatherMap(_)) => {
                        let res = openweathermap::to_weather_data(l.display_name, w);
                        (Query { adapter, stage: Stage::Done }, Action::Finish(res))
                    },
                    _ => (Query { adapter, stage: Stage::Done }, unexpected),
                }
            },
            Event::Search(s) => {
                match (stage, &adapter) {
                    (Stage::DecodingSearch(l), Adapter::AccuWeather(p)) => match location_key(s) {
                        Ok(k) => {
                            let url = p.conditions_url(&k);
                            (Query { adapter, stage: Stage::FetchingConditions(l) }, Action::Fetch(url))
                        },
                        Err(e) => (Query { adapter, stage: Stage::Done }, Action::Finish(Err(e))),
                    },
                    _ => (Query { adapter, stage: Stage::Done }, unexpected),
                }
            },
            Event::Conditions(list) => {
                match stage {
                    Stage::DecodingConditions(l) => {
                        let res = accuweather::to_weather_data(l.display_name, list);
                        (Query { adapter, stage: Stage::Done }, Action::Finish(res))
                    },
                    _ => (Query { adapter, stage: Stage::Done }, unexpected),
                }
            },
        }
    }
}

} // verus!
