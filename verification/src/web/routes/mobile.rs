//! Mobile API: query parameters of its history endpoints.

use vstd::prelude::*;

use crate::web::routes::charts::{auto_resolution, window_of};

verus! {

/// Query parameters of the energy history endpoint.
pub struct EnergyQuery {
    pub from: Option<i64>,
    pub to: Option<i64>,
    pub resolution: String,
}

/// Query parameters of the daily summaries endpoint (`YYYY-MM-DD` dates).
pub struct SummaryQuery {
    pub from: Option<String>,
    pub to: Option<String>,
}

/// Resolution requested when none is given.
pub fn default_resolution() -> (r: String)
    ensures
        r@ == "auto"@,
{
    crate::web::routes::charts::default_resolution()
}

/// The resolution actually queried, chosen as the chart endpoints choose it.
pub fn resolve_auto_resolution(resolution: &str, from: i64, to: i64) -> (r: String)
    ensures
        r@ == auto_resolution(resolution@, from as int, to as int),
{
    crate::web::routes::charts::resolve_auto_resolution(resolution, from, to)
}

impl EnergyQuery {
    /// The time window that this query asks for at `now`: by default the
    /// last day.
    pub fn time_window(&self, now: i64) -> (r: (i64, i64))
        requires
            i64::MIN + 86400 <= now,
        ensures
            (r.0 as int, r.1 as int) == window_of(self.from, self.to, now as int, 86400),
    {
        let from = match self.from {
            Some(f) => f,
            None => now - 86400,
        };
        let to = match self.to {
            Some(t) => t,
            None => now,
        };
        (from, to)
    }
}

impl SummaryQuery {
    /// The date range that this query asks for: each missing bound is
    /// `today`.
    pub fn date_range(&self, today: &str) -> (r: (String, String))
        ensures
            r.0@ == match self.from {
                Some(f) => f@,
                None => today@,
            },
            r.1@ == match self.to {
                Some(t) => t@,
                None => today@,
            },
    {
        let from = match &self.from {
            Some(f) => f.clone(),
            None => String::from_str(today),
        };
        let to = match &self.to {
            Some(t) => t.clone(),
            None => String::from_str(today),
        };
        (from, to)
    }
}

} // verus!
