//! Chart endpoints: query parameters and the automatic choice of resolution.

use vstd::prelude::*;

use crate::text::{chars_equal_str, chars_of};

verus! {

/// Query parameters of the chart endpoints.
pub struct ChartQuery {
    pub from: Option<i64>,
    pub to: Option<i64>,
    pub resolution: String,
}

/// Resolution requested when none is given.
pub fn default_resolution() -> (r: String)
    ensures
        r@ == "auto"@,
{
    String::from_str("auto")
}

/// The resolution actually queried: an explicit one is kept; `auto` picks
/// raw samples up to one hour, minutes up to one day, five minutes up to one
/// week, and hours beyond.
pub open spec fn auto_resolution(resolution: Seq<char>, from: int, to: int) -> Seq<char> {
    if resolution != "auto"@ {
        resolution
    } else if to - from <= 3600 {
        "raw"@
    } else if to - from <= 86400 {
        "1m"@
    } else if to - from <= 7 * 86400 {
        "5m"@
    } else {
        "1h"@
    }
}

pub fn resolve_auto_resolution(resolution: &str, from: i64, to: i64) -> (r: String)
    ensures
        r@ == auto_resolution(resolution@, from as int, to as int),
{
    let v = chars_of(resolution);
    if !chars_equal_str(v.as_slice(), "auto") {
        return String::from_str(resolution);
    }
    let range: i128 = (to as i128) - (from as i128);
    if range <= 3600 {
        String::from_str("raw")
    } else if range <= 86400 {
        String::from_str("1m")
    } else if range <= 7 * 86400 {
        String::from_str("5m")
    } else {
        String::from_str("1h")
    }
}

/// Span (seconds) of a history chart when no start is given: one day.
pub const HISTORY_SPAN_SECS: i64 = 86400;

/// Span (seconds) of the daily energy chart when no start is given: 30 days.
pub const DAILY_SPAN_SECS: i64 = 2592000;

/// The bounds of a query window at `now`: `from` defaults to `span` seconds
/// before `now`, `to` to `now`.
pub open spec fn window_of(from: Option<i64>, to: Option<i64>, now: int, span: int) -> (int, int) {
    (
        match from {
            Some(f) => f as int,
            None => now - span,
        },
        match to {
            Some(t) => t as int,
            None => now,
        },
    )
}

impl ChartQuery {
    /// The time window that this query asks for at `now`, a missing start
    /// lying `span` seconds before `now`.
    pub fn time_window(&self, now: i64, span: i64) -> (r: (i64, i64))
        requires
            0 <= span,
            i64::MIN + span <= now,
        ensures
            (r.0 as int, r.1 as int) == window_of(self.from, self.to, now as int, span as int),
    {
        let from = match self.from {
            Some(f) => f,
            None => now - span,
        };
        let to = match self.to {
            Some(t) => t,
            None => now,
        };
        (from, to)
    }
}

} // verus!
