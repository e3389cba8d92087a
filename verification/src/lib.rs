//! Verified core of the evcc energy dashboard: configuration defaults,
//! MQTT topic interpretation, comparison periods, view navigation and the
//! small decision functions behind the web handlers.

pub mod config;
pub mod db;
pub mod text;
pub mod calendar;
pub mod model;
pub mod mqtt;
pub mod web;
