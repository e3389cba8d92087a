//! Route modules, one per group of pages and endpoints.

pub mod charts;
pub mod compare;
pub mod dashboard;
pub mod energy_flow;
pub mod login;
pub mod mobile;
pub mod settings;
pub mod views;
