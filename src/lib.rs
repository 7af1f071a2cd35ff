//! Current weather at a free-text address from one of several providers,
//! normalized into a single report with fixed units.
//!
//! Requests are driven by [`query::Query`]: the caller performs each request
//! or decoding it asks for and hands the outcome back. Each provider's answer is
//! turned into a [`common::WeatherData`] by its module's `to_weather_data`.

use vstd::prelude::*;

pub mod accuweather;
pub mod common;
pub mod config;
pub mod coordinates;
pub mod decimal;
pub mod openweathermap;
pub mod query;
pub mod text;
pub mod units;
pub mod weatherapi;

verus! {

} // verus!
