//! Multi-provider weather forecasts: provider selection, credentials,
//! date offsets and the translation of each provider's responses into one
//! common report.
pub mod provider;
pub mod error;
pub mod calendar;
pub mod credentials;
pub mod report;
pub mod http;
pub mod weather_api;
pub mod accu_weather;
pub mod apis;
pub mod weather_service;
pub mod configure;
