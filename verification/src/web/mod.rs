//! Web side of the dashboard: the decisions behind its handlers.

pub mod middleware;
pub mod routes;
pub mod state;
