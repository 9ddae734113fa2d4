//! Forecast resolution for a weather service: a registry of forecast providers,
//! one adapter per provider, and the decisions that turn a provider, a location
//! and a date into one normalized day of forecast or a typed error.
//!
//! The library performs no input or output. Whoever drives it sends the request
//! that the library describes and hands back what the transport reported.

pub mod address;
pub mod forecast;
pub mod location_search;
pub mod weather_service_impl;
